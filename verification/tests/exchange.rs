use radar_display::exchange::{FrameExchange, PanelBusyGuard, Submission};
use radar_display::handoff::{BufferId, HandoffQueue};

#[test]
fn buffers_alternate_by_frame_parity() {
    assert_eq!(BufferId::for_frame(0), BufferId::First);
    assert_eq!(BufferId::for_frame(1), BufferId::Second);
    assert_eq!(BufferId::for_frame(2), BufferId::First);
    assert_eq!(BufferId::for_frame(u64::MAX), BufferId::Second);
    assert_eq!(BufferId::First.other(), BufferId::Second);
    assert_eq!(BufferId::Second.other(), BufferId::First);
    assert_eq!((BufferId::First.index(), BufferId::Second.index()), (0, 1));
}

#[test]
fn handoff_queue_hands_frames_out_in_order() {
    let frames = [
        BufferId::First,
        BufferId::Second,
        BufferId::Second,
        BufferId::First,
        BufferId::Second,
    ];
    let mut queue = HandoffQueue::new();
    assert!(queue.is_empty());
    for frame in frames {
        queue.enqueue(frame);
    }
    assert_eq!(queue.len(), 5);
    for frame in frames {
        assert_eq!(queue.dequeue(), Some(frame));
    }
    assert_eq!(queue.dequeue(), None);
    assert!(queue.is_empty());
}

#[test]
fn handoff_queue_interleaves_without_reordering() {
    let mut queue = HandoffQueue::new();
    queue.enqueue(BufferId::First);
    queue.enqueue(BufferId::Second);
    assert_eq!(queue.dequeue(), Some(BufferId::First));
    queue.enqueue(BufferId::First);
    assert_eq!(queue.dequeue(), Some(BufferId::Second));
    assert_eq!(queue.dequeue(), Some(BufferId::First));
    assert_eq!(queue.dequeue(), None);
}

#[test]
fn busy_guard_is_held_by_one_side_at_a_time() {
    let mut guard = PanelBusyGuard::new();
    assert!(!guard.is_held());
    assert!(guard.try_acquire());
    assert!(guard.is_held());
    assert!(!guard.try_acquire());
    assert!(guard.is_held());
    guard.release();
    assert!(!guard.is_held());
    assert!(guard.try_acquire());
}

#[test]
fn exchange_starts_with_both_buffers_at_the_renderer() {
    let mut exchange = FrameExchange::new();
    assert_eq!(exchange.frame(), 0);
    assert_eq!(exchange.drawing(), None);
    assert_eq!(exchange.in_transfer(), None);
    assert_eq!(exchange.pending(), 0);
    assert!(!exchange.is_busy());
    assert_eq!(exchange.take_frame(), None);
    assert_eq!(exchange.finish_transfer(), None);
    assert_eq!(exchange.submit_frame(), Submission::NotDrawing);
}

#[test]
fn frames_pass_from_renderer_to_writer_in_turn() {
    let mut exchange = FrameExchange::new();
    let mut shown = Vec::new();
    for frame in 0..6u64 {
        assert_eq!(exchange.frame(), frame);
        let buffer = exchange.begin_frame();
        assert_eq!(buffer, Some(BufferId::for_frame(frame)));
        assert_eq!(exchange.begin_frame(), None);
        assert_eq!(exchange.submit_frame(), Submission::Sent(buffer.unwrap()));
        assert_eq!(exchange.pending(), 1);
        assert_eq!(exchange.take_frame(), buffer);
        assert!(exchange.is_busy());
        assert_eq!(exchange.in_transfer(), buffer);
        assert_eq!(exchange.take_frame(), None);
        shown.push(exchange.finish_transfer().unwrap());
        assert!(!exchange.is_busy());
    }
    let first = BufferId::First;
    let second = BufferId::Second;
    assert_eq!(shown, vec![first, second, first, second, first, second]);
}

#[test]
fn renderer_draws_while_the_writer_transfers_the_other_buffer() {
    let mut exchange = FrameExchange::new();
    assert_eq!(exchange.begin_frame(), Some(BufferId::First));
    assert_eq!(exchange.submit_frame(), Submission::Sent(BufferId::First));
    assert_eq!(exchange.take_frame(), Some(BufferId::First));
    assert_eq!(exchange.begin_frame(), Some(BufferId::Second));
    assert_eq!(exchange.drawing(), Some(BufferId::Second));
    assert_eq!(exchange.in_transfer(), Some(BufferId::First));
    assert_eq!(exchange.submit_frame(), Submission::PanelBusy);
    assert_eq!(exchange.drawing(), Some(BufferId::Second));
    assert_eq!(exchange.finish_transfer(), Some(BufferId::First));
    assert_eq!(exchange.submit_frame(), Submission::Sent(BufferId::Second));
    assert_eq!(exchange.begin_frame(), Some(BufferId::First));
    assert_eq!(exchange.take_frame(), Some(BufferId::Second));
    assert_ne!(exchange.drawing(), exchange.in_transfer());
}

#[test]
fn renderer_waits_for_a_writer_that_lags() {
    let mut exchange = FrameExchange::new();
    assert_eq!(exchange.begin_frame(), Some(BufferId::First));
    assert_eq!(exchange.submit_frame(), Submission::Sent(BufferId::First));
    assert_eq!(exchange.begin_frame(), Some(BufferId::Second));
    assert_eq!(exchange.submit_frame(), Submission::PanelBusy);
    assert_eq!(exchange.submit_frame(), Submission::PanelBusy);
    assert_eq!(exchange.pending(), 1);
    assert_eq!(exchange.frame(), 1);
    assert_eq!(exchange.take_frame(), Some(BufferId::First));
    assert_eq!(exchange.submit_frame(), Submission::PanelBusy);
    assert_eq!(exchange.finish_transfer(), Some(BufferId::First));
    assert_eq!(exchange.submit_frame(), Submission::Sent(BufferId::Second));
    assert_eq!(exchange.frame(), 2);
}

#[test]
fn no_schedule_shares_a_buffer() {
    let mut seed: u32 = 12345;
    let mut exchange = FrameExchange::new();
    for _ in 0..20000 {
        seed = seed.wrapping_mul(1664525).wrapping_add(1013904223);
        match (seed >> 16) % 4 {
            0 => {
                exchange.begin_frame();
            }
            1 => {
                exchange.submit_frame();
            }
            2 => {
                exchange.take_frame();
            }
            _ => {
                exchange.finish_transfer();
            }
        }
        if exchange.drawing().is_some() {
            assert_ne!(exchange.drawing(), exchange.in_transfer());
        }
        assert!(exchange.pending() <= 1);
        assert_eq!(exchange.is_busy(), exchange.in_transfer().is_some());
    }
    assert!(exchange.frame() > 100);
}
