//! What the graphics crate computes for the frame: the pixels of a circle and
//! the packed form of a colour. Nothing here is proved; each contract states
//! what is taken on trust from `embedded-graphics`.

use embedded_graphics::geometry::Point;
use embedded_graphics::pixelcolor::{BinaryColor, IntoStorage, Rgb565};
use embedded_graphics::primitives::{Circle, PointsIter, Primitive, PrimitiveStyle};
use vstd::prelude::*;

verus! {

/// Largest magnitude of a corner coordinate handed to the rasteriser.
pub const MAX_CORNER: i32 = 0x2000_0000;

/// Largest circle diameter handed to the rasteriser.
pub const MAX_DIAMETER: u32 = 4096;

/// Largest stroke width handed to the rasteriser.
pub const MAX_STROKE: u32 = 64;

/// The points that `Circle::points` yields, in its order, for the circle whose
/// bounding square has the given top-left corner and side.
pub uninterp spec fn disc_points(left: i32, top: i32, diameter: u32) -> Seq<(i32, i32)>;

/// The points that `Styled::pixels` yields, in its order, for the same circle
/// drawn with a stroke of the given width and no fill.
pub uninterp spec fn outline_points(left: i32, top: i32, diameter: u32, stroke: u32) -> Seq<
    (i32, i32),
>;

/// The 16-bit word of a colour with 5 bits of red, 6 of green and 5 of blue:
/// the bits of a channel that do not fit are dropped.
pub open spec fn packed_rgb565(red: u8, green: u8, blue: u8) -> u16 {
    (((red & 31) as u16) << 11) | (((green & 63) as u16) << 5) | ((blue & 31) as u16)
}

/// Calls `Circle::new` and `PointsIter::points` of `embedded-graphics` and
/// collects the points of the filled circle as coordinate pairs.
///
/// Trusted: the call depends on its three arguments alone, and within the
/// bounds required here its arithmetic stays inside `i32`.
#[verifier::external_body]
pub(crate) fn filled_circle(left: i32, top: i32, diameter: u32) -> (points: Vec<(i32, i32)>)
    requires
        -MAX_CORNER <= left <= MAX_CORNER,
        -MAX_CORNER <= top <= MAX_CORNER,
        diameter <= MAX_DIAMETER,
    ensures
        points@ == disc_points(left, top, diameter),
{
    Circle::new(Point::new(left, top), diameter).points().map(|p| (p.x, p.y)).collect()
}

/// Calls `Primitive::into_styled` on a circle with `PrimitiveStyle::with_stroke`
/// and then `Styled::pixels` of `embedded-graphics`, and collects the position
/// of each pixel of the stroke.
///
/// Trusted: the call depends on its four arguments alone, and within the
/// bounds required here its arithmetic stays inside `i32`.
#[verifier::external_body]
pub(crate) fn stroked_circle(left: i32, top: i32, diameter: u32, stroke: u32) -> (points: Vec<
    (i32, i32),
>)
    requires
        -MAX_CORNER <= left <= MAX_CORNER,
        -MAX_CORNER <= top <= MAX_CORNER,
        diameter <= MAX_DIAMETER,
        stroke <= MAX_STROKE,
    ensures
        points@ == outline_points(left, top, diameter, stroke),
{
    Circle::new(Point::new(left, top), diameter)
        .into_styled(PrimitiveStyle::with_stroke(BinaryColor::On, stroke))
        .pixels()
        .map(|pixel| (pixel.0.x, pixel.0.y))
        .collect()
}

/// Calls `Rgb565::new` and `IntoStorage::into_storage` of `embedded-graphics`.
///
/// Trusted: the word holds the low 5 bits of red in bits 11 to 15, the low 6
/// bits of green in bits 5 to 10 and the low 5 bits of blue in bits 0 to 4.
#[verifier::external_body]
pub(crate) fn pack_rgb565(red: u8, green: u8, blue: u8) -> (word: u16)
    ensures
        word == packed_rgb565(red, green, blue),
{
    Rgb565::new(red, green, blue).into_storage()
}

} // verus!
