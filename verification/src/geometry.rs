//! Fixed geometry of the display and the projection of sensor coordinates
//! into pixel coordinates.

use vstd::prelude::*;

verus! {

/// Width of the frame in pixels.
pub const FRAME_WIDTH: i32 = 800;

/// Height of the frame in pixels.
pub const FRAME_HEIGHT: i32 = 480;

/// Largest distance, in millimetres, that is mapped onto the frame height.
pub const MAX_RANGE_MM: i32 = 5000;

/// Horizontal pixel coordinate of the sensor's position.
pub const CENTER_X: i32 = 400;

/// Vertical pixel coordinate of the sensor's position: the top edge.
pub const CENTER_Y: i32 = 0;

/// Quotient of `a` by a positive `b`, rounded toward zero.
pub open spec fn div_toward_zero(a: int, b: int) -> int
    recommends
        b > 0,
{
    if a >= 0 {
        a / b
    } else {
        -((-a) / b)
    }
}

/// A distance in millimetres scaled by `FRAME_HEIGHT / MAX_RANGE_MM`, rounded
/// toward zero.
pub open spec fn scale_mm(mm: int) -> int {
    div_toward_zero(mm * 480, 5000)
}

/// Scales a distance in millimetres to pixels.
pub fn scale_to_pixels(mm: i32) -> (px: i32)
    ensures
        px == scale_mm(mm as int),
        -206158430 <= px <= 206158430,
{
    let wide: i64 = (mm as i64) * (FRAME_HEIGHT as i64);
    let scaled: i64 = wide / (MAX_RANGE_MM as i64);
    scaled as i32
}

/// Position of one detected object, in millimetres, in the sensor's own
/// frame: `x` runs across the sensor, `y` away from it.
#[derive(Clone, Copy, Debug, PartialEq, Eq, Structural)]
pub struct TargetRecord {
    pub x: i32,
    pub y: i32,
}

/// A position on the pixel grid. It may lie outside the frame.
#[derive(Clone, Copy, Debug, PartialEq, Eq, Structural)]
pub struct PixelPoint {
    pub x: i32,
    pub y: i32,
}

/// The pixel onto which a target falls: each axis scaled on its own, the
/// sensor's `x` counted from the frame's horizontal centre and its `y` from
/// the top edge.
pub open spec fn projected(target: TargetRecord) -> PixelPoint {
    PixelPoint { x: (scale_mm(target.x as int) + 400) as i32, y: scale_mm(target.y as int) as i32 }
}

/// Projects a target from sensor millimetres to pixels. Every record has a
/// projection; one far from the sensor falls outside the frame.
pub fn project(target: TargetRecord) -> (point: PixelPoint)
    ensures
        point == projected(target),
        point.x == scale_mm(target.x as int) + 400,
        point.y == scale_mm(target.y as int),
{
    let x: i32 = scale_to_pixels(target.x) + CENTER_X;
    let y: i32 = scale_to_pixels(target.y) + CENTER_Y;
    PixelPoint { x, y }
}

/// Whether a pixel position lies inside the frame.
pub open spec fn in_frame(point: PixelPoint) -> bool {
    0 <= point.x < 800 && 0 <= point.y < 480
}

/// Tells whether a pixel position lies inside the frame.
pub fn is_in_frame(point: PixelPoint) -> (inside: bool)
    ensures
        inside == in_frame(point),
{
    0 <= point.x && point.x < FRAME_WIDTH && 0 <= point.y && point.y < FRAME_HEIGHT
}

/// A rectangle of the panel, from its first column and row up to, and not
/// including, its end column and row.
#[derive(Clone, Copy, Debug, PartialEq, Eq, Structural)]
pub struct Region {
    pub x_start: i32,
    pub y_start: i32,
    pub x_end: i32,
    pub y_end: i32,
}

/// The region that a transfer to the panel covers: the whole frame, from
/// its origin.
pub fn full_frame() -> (region: Region)
    ensures
        region == (Region { x_start: 0, y_start: 0, x_end: 800, y_end: 480 }),
{
    Region { x_start: 0, y_start: 0, x_end: FRAME_WIDTH, y_end: FRAME_HEIGHT }
}

/// Number of reference rings.
pub const RING_COUNT: u32 = 5;

/// Stroke width of a reference ring, in pixels.
pub const RING_STROKE: u32 = 2;

/// Radius of a target's disc, in pixels.
pub const TARGET_RADIUS: i32 = 20;

/// Radius of the ring with the given index: from the frame height at index 0
/// down in equal steps, so that the step after the last ring would reach zero.
pub open spec fn ring_radius_of(index: int) -> int {
    480 - index * 96
}

/// The radii of all rings, outermost first.
pub open spec fn ring_radii() -> Seq<int> {
    Seq::new(5, |i: int| ring_radius_of(i))
}

/// Radius of the ring with the given index.
pub fn ring_radius(index: u32) -> (radius: i32)
    requires
        index < 5,
    ensures
        radius == ring_radius_of(index as int),
        96 <= radius <= 480,
{
    let step: i32 = FRAME_HEIGHT / (RING_COUNT as i32);
    FRAME_HEIGHT - (index as i32) * step
}

/// The rings have the radii 480, 384, 288, 192 and 96, outermost first.
pub proof fn lemma_ring_radii()
    ensures
        ring_radii() =~= seq![480int, 384int, 288int, 192int, 96int],
{
}

/// A circle by its bounding square: the square's top-left corner and its side.
#[derive(Clone, Copy, Debug, PartialEq, Eq, Structural)]
pub struct CircleBox {
    pub left: i32,
    pub top: i32,
    pub diameter: u32,
}

/// The bounding square of the circle of the given radius about a centre.
pub open spec fn circle_box_of(center: PixelPoint, radius: int) -> CircleBox {
    CircleBox {
        left: (center.x - radius) as i32,
        top: (center.y - radius) as i32,
        diameter: (2 * radius) as u32,
    }
}

/// Turns a centre and a radius into the circle's bounding square.
pub fn circle_box(center: PixelPoint, radius: i32) -> (square: CircleBox)
    requires
        0 <= radius,
        center.x - radius >= i32::MIN,
        center.y - radius >= i32::MIN,
    ensures
        square == circle_box_of(center, radius as int),
        square.left == center.x - radius,
        square.top == center.y - radius,
        square.diameter == 2 * radius,
{
    CircleBox { left: center.x - radius, top: center.y - radius, diameter: 2 * (radius as u32) }
}

/// The bounding square of the ring with the given index, centred on the
/// sensor's position.
pub open spec fn ring_box_of(index: int) -> CircleBox {
    circle_box_of(PixelPoint { x: 400, y: 0 }, ring_radius_of(index))
}

/// The bounding square of a ring.
pub fn ring_box(index: u32) -> (square: CircleBox)
    requires
        index < 5,
    ensures
        square == ring_box_of(index as int),
{
    circle_box(PixelPoint { x: CENTER_X, y: CENTER_Y }, ring_radius(index))
}

/// The bounding square of a target's disc: the disc of `TARGET_RADIUS` about
/// the target's projection.
pub open spec fn target_box_of(target: TargetRecord) -> CircleBox {
    circle_box_of(projected(target), 20)
}

/// The bounding square of a target's disc.
pub fn target_box(target: TargetRecord) -> (square: CircleBox)
    ensures
        square == target_box_of(target),
        -0x1000_0000 <= square.left <= 0x1000_0000,
        -0x1000_0000 <= square.top <= 0x1000_0000,
        square.diameter == 40,
{
    circle_box(project(target), TARGET_RADIUS)
}

} // verus!
