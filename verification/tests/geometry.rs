use radar_display::geometry::{
    circle_box, full_frame, is_in_frame, project, ring_box, ring_radius, scale_to_pixels, target_box,
    CircleBox, PixelPoint, Region, TargetRecord, CENTER_X, CENTER_Y, FRAME_HEIGHT, FRAME_WIDTH,
    MAX_RANGE_MM, RING_COUNT, RING_STROKE, TARGET_RADIUS,
};

#[test]
fn constants_describe_the_panel() {
    assert_eq!(FRAME_WIDTH, 800);
    assert_eq!(FRAME_HEIGHT, 480);
    assert_eq!(MAX_RANGE_MM, 5000);
    assert_eq!((CENTER_X, CENTER_Y), (400, 0));
    assert_eq!(RING_COUNT, 5);
    assert_eq!(RING_STROKE, 2);
    assert_eq!(TARGET_RADIUS, 20);
}

#[test]
fn origin_projects_to_center() {
    let point = project(TargetRecord { x: 0, y: 0 });
    assert_eq!(point, PixelPoint { x: 400, y: 0 });
    assert!(is_in_frame(point));
}

#[test]
fn full_range_right_projects_past_the_edge() {
    let point = project(TargetRecord { x: 5000, y: 0 });
    assert_eq!(point, PixelPoint { x: 880, y: 0 });
    assert!(!is_in_frame(point));
}

#[test]
fn full_range_left_projects_off_frame() {
    let point = project(TargetRecord { x: -5000, y: 0 });
    assert_eq!(point, PixelPoint { x: -80, y: 0 });
    assert!(!is_in_frame(point));
}

#[test]
fn full_range_ahead_projects_to_frame_height() {
    let point = project(TargetRecord { x: 0, y: 5000 });
    assert_eq!(point, PixelPoint { x: 400, y: 480 });
    assert!(!is_in_frame(point));
    assert!(is_in_frame(project(TargetRecord { x: 0, y: 4989 })));
}

#[test]
fn scaling_rounds_toward_zero() {
    assert_eq!(scale_to_pixels(0), 0);
    assert_eq!(scale_to_pixels(10), 0);
    assert_eq!(scale_to_pixels(11), 1);
    assert_eq!(scale_to_pixels(52), 4);
    assert_eq!(scale_to_pixels(125), 12);
    assert_eq!(scale_to_pixels(-10), 0);
    assert_eq!(scale_to_pixels(-11), -1);
    assert_eq!(scale_to_pixels(-52), -4);
    assert_eq!(scale_to_pixels(-125), -12);
    assert_eq!(scale_to_pixels(2500), 240);
}

#[test]
fn scaling_agrees_with_the_floating_point_gain() {
    let gain: f64 = 480.0 / 5000.0;
    let mut mm: i32 = -40000;
    while mm <= 40000 {
        assert_eq!(scale_to_pixels(mm), (mm as f64 * gain) as i32, "at {} mm", mm);
        mm += 1;
    }
}

#[test]
fn scaling_takes_every_input() {
    assert_eq!(scale_to_pixels(i32::MAX), 206158430);
    assert_eq!(scale_to_pixels(i32::MIN), -206158430);
    let far = project(TargetRecord { x: i32::MAX, y: i32::MIN });
    assert_eq!(far, PixelPoint { x: 206158830, y: -206158430 });
}

#[test]
fn frame_membership_at_the_corners() {
    assert!(is_in_frame(PixelPoint { x: 0, y: 0 }));
    assert!(is_in_frame(PixelPoint { x: 799, y: 479 }));
    assert!(!is_in_frame(PixelPoint { x: 800, y: 479 }));
    assert!(!is_in_frame(PixelPoint { x: 799, y: 480 }));
    assert!(!is_in_frame(PixelPoint { x: -1, y: 0 }));
    assert!(!is_in_frame(PixelPoint { x: 0, y: -1 }));
}

#[test]
fn ring_radii_step_down_from_frame_height() {
    let radii: Vec<i32> = (0..5).map(ring_radius).collect();
    assert_eq!(radii, vec![480, 384, 288, 192, 96]);
}

#[test]
fn ring_boxes_are_centered_on_the_sensor() {
    assert_eq!(ring_box(0), CircleBox { left: -80, top: -480, diameter: 960 });
    assert_eq!(ring_box(1), CircleBox { left: 16, top: -384, diameter: 768 });
    assert_eq!(ring_box(4), CircleBox { left: 304, top: -96, diameter: 192 });
}

#[test]
fn circle_box_spans_two_radii() {
    let square = circle_box(PixelPoint { x: 10, y: -3 }, 7);
    assert_eq!(square, CircleBox { left: 3, top: -10, diameter: 14 });
    let point = circle_box(PixelPoint { x: 5, y: 5 }, 0);
    assert_eq!(point, CircleBox { left: 5, top: 5, diameter: 0 });
}

#[test]
fn target_box_surrounds_the_projection() {
    let square = target_box(TargetRecord { x: 0, y: 2500 });
    assert_eq!(square, CircleBox { left: 380, top: 220, diameter: 40 });
    let outside = target_box(TargetRecord { x: -5000, y: 0 });
    assert_eq!(outside, CircleBox { left: -100, top: -20, diameter: 40 });
}

#[test]
fn transfer_covers_the_whole_frame() {
    assert_eq!(full_frame(), Region { x_start: 0, y_start: 0, x_end: 800, y_end: 480 });
}
