use radar_display::geometry::TargetRecord;
use radar_display::queue::{OverflowPolicy, TargetQueue};
use radar_display::source::{forward_notification, is_radar_name};

#[test]
fn radar_is_known_by_the_start_of_its_name() {
    assert!(is_radar_name(b"HLK-LD2450_"));
    assert!(is_radar_name(b"HLK-LD2450_A1B2"));
    assert!(!is_radar_name(b"HLK-LD2450"));
    assert!(!is_radar_name(b"HLK-LD2410_A1B2"));
    assert!(!is_radar_name(b"hlk-ld2450_a1b2"));
    assert!(!is_radar_name(b" HLK-LD2450_"));
    assert!(!is_radar_name(b""));
}

#[test]
fn notification_without_a_frame_is_dropped() {
    let mut queue = TargetQueue::new(10, OverflowPolicy::Block);
    assert_eq!(forward_notification(&mut queue, &None, 0), 0);
    assert!(queue.is_empty());
}

#[test]
fn notification_with_no_targets_queues_nothing() {
    let mut queue = TargetQueue::new(10, OverflowPolicy::Block);
    assert_eq!(forward_notification(&mut queue, &Some(Vec::new()), 0), 0);
    assert!(queue.is_empty());
}

#[test]
fn decoded_targets_are_queued_in_order() {
    let mut queue = TargetQueue::new(10, OverflowPolicy::Block);
    let first = vec![TargetRecord { x: 1, y: 2 }, TargetRecord { x: -3, y: 4 }];
    let second = vec![TargetRecord { x: 5, y: 6 }];
    assert_eq!(forward_notification(&mut queue, &Some(first), 0), 2);
    assert_eq!(forward_notification(&mut queue, &None, 0), 0);
    assert_eq!(forward_notification(&mut queue, &Some(second), 0), 1);
    assert_eq!(
        queue.drain(),
        vec![
            TargetRecord { x: 1, y: 2 },
            TargetRecord { x: -3, y: 4 },
            TargetRecord { x: 5, y: 6 },
        ]
    );
}

#[test]
fn notification_is_resumed_after_a_drain() {
    let mut queue = TargetQueue::new(2, OverflowPolicy::Block);
    let decoded = Some(vec![
        TargetRecord { x: 1, y: 1 },
        TargetRecord { x: 2, y: 2 },
        TargetRecord { x: 3, y: 3 },
    ]);
    let next = forward_notification(&mut queue, &decoded, 0);
    assert_eq!(next, 2);
    assert_eq!(queue.drain().len(), 2);
    assert_eq!(forward_notification(&mut queue, &decoded, next), 3);
    assert_eq!(queue.drain(), vec![TargetRecord { x: 3, y: 3 }]);
}
