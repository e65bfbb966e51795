//! Composition of a frame: background, reference rings, then one disc for
//! each target.

use crate::canvas::{covers, painted, PixelBuffer};
use crate::geometry::{
    ring_box, ring_box_of, target_box, target_box_of, CircleBox, TargetRecord, RING_COUNT,
    RING_STROKE,
};
use crate::queue::TargetQueue;
use crate::raster::{
    disc_points, filled_circle, outline_points, pack_rgb565, packed_rgb565, stroked_circle,
};
use vstd::prelude::*;

verus! {

/// Colour word of the background.
pub const BACKGROUND: u16 = 0x2A8A;

/// Colour word of the reference rings.
pub const RING_COLOR: u16 = 0x6E99;

/// Colour word of a target's disc.
pub const TARGET_COLOR: u16 = 0xF800;

/// The background colour, from its 8-bit channels (42, 83, 87).
pub fn background_color() -> (word: u16)
    ensures
        word == BACKGROUND,
{
    assert(packed_rgb565(5, 20, 10) == 0x2A8A) by {
        assert((((5u8 & 31) as u16) << 11) | (((20u8 & 63) as u16) << 5) | ((10u8 & 31) as u16)
            == 0x2A8Au16) by (bit_vector);
    }
    assert(42u8 >> 3 == 5u8 && 83u8 >> 2 == 20u8 && 87u8 >> 3 == 10u8) by (bit_vector);
    pack_rgb565(42 >> 3, 83 >> 2, 87 >> 3)
}

/// The colour of the rings, from its 8-bit channels (108, 208, 200).
pub fn ring_color() -> (word: u16)
    ensures
        word == RING_COLOR,
{
    assert(packed_rgb565(13, 52, 25) == 0x6E99) by {
        assert((((13u8 & 31) as u16) << 11) | (((52u8 & 63) as u16) << 5) | ((25u8 & 31) as u16)
            == 0x6E99u16) by (bit_vector);
    }
    assert(108u8 >> 3 == 13u8 && 208u8 >> 2 == 52u8 && 200u8 >> 3 == 25u8) by (bit_vector);
    pack_rgb565(108 >> 3, 208 >> 2, 200 >> 3)
}

/// The colour of a target: full red. The channel value 255 is cut to the
/// five bits that the word has for red.
pub fn target_color() -> (word: u16)
    ensures
        word == TARGET_COLOR,
{
    assert(packed_rgb565(255, 0, 0) == 0xF800) by {
        assert((((255u8 & 31) as u16) << 11) | (((0u8 & 63) as u16) << 5) | ((0u8 & 31) as u16)
            == 0xF800u16) by (bit_vector);
    }
    pack_rgb565(255, 0, 0)
}

/// The stroke pixels of the ring with the given index.
pub open spec fn ring_points(index: int) -> Seq<(i32, i32)> {
    let square = ring_box_of(index);
    outline_points(square.left, square.top, square.diameter, 2)
}

/// The pixels of a target's disc.
pub open spec fn target_points(target: TargetRecord) -> Seq<(i32, i32)> {
    let square = target_box_of(target);
    disc_points(square.left, square.top, square.diameter)
}

/// Whether one of the first `count` rings passes through position `index`.
pub open spec fn on_ring_below(count: int, index: int) -> bool {
    exists|r: int| 0 <= r < count && covers(#[trigger] ring_points(r), index)
}

/// Whether a ring passes through position `index`.
pub open spec fn on_ring(index: int) -> bool {
    on_ring_below(5, index)
}

/// Whether the disc of one of `targets` lies over position `index`.
pub open spec fn on_target(targets: Seq<TargetRecord>, index: int) -> bool {
    exists|t: int| 0 <= t < targets.len() && covers(target_points(#[trigger] targets[t]), index)
}

/// `image` with the first `count` rings drawn over it.
pub open spec fn with_rings(image: Seq<u16>, count: int) -> Seq<u16> {
    Seq::new(
        image.len(),
        |i: int|
            if on_ring_below(count, i) {
                RING_COLOR
            } else {
                image[i]
            },
    )
}

/// `image` with the discs of `targets` drawn over it.
pub open spec fn with_targets(image: Seq<u16>, targets: Seq<TargetRecord>) -> Seq<u16> {
    Seq::new(
        image.len(),
        |i: int|
            if on_target(targets, i) {
                TARGET_COLOR
            } else {
                image[i]
            },
    )
}

/// The colour of one pixel of a finished frame: a target's disc lies over
/// the rings, and the rings over the background.
pub open spec fn frame_pixel(targets: Seq<TargetRecord>, index: int) -> u16 {
    if on_target(targets, index) {
        TARGET_COLOR
    } else if on_ring(index) {
        RING_COLOR
    } else {
        BACKGROUND
    }
}

/// The finished frame for the given targets.
pub open spec fn frame_image(targets: Seq<TargetRecord>) -> Seq<u16> {
    Seq::new(384000, |i: int| frame_pixel(targets, i))
}

proof fn lemma_one_more_ring(image: Seq<u16>, count: int)
    requires
        count >= 0,
    ensures
        painted(with_rings(image, count), ring_points(count), RING_COLOR) == with_rings(
            image,
            count + 1,
        ),
{
    let left = painted(with_rings(image, count), ring_points(count), RING_COLOR);
    let right = with_rings(image, count + 1);
    assert forall|i: int| 0 <= i < image.len() implies left[i] == right[i] by {
        if on_ring_below(count, i) {
            let r = choose|r: int| 0 <= r < count && covers(#[trigger] ring_points(r), i);
            assert(0 <= r < count + 1 && covers(ring_points(r), i));
        } else if covers(ring_points(count), i) {
            assert(on_ring_below(count + 1, i));
        } else if on_ring_below(count + 1, i) {
            let r = choose|r: int| 0 <= r < count + 1 && covers(#[trigger] ring_points(r), i);
            assert(r < count);
        }
    }
    assert(left =~= right);
}

proof fn lemma_one_more_target(image: Seq<u16>, targets: Seq<TargetRecord>, target: TargetRecord)
    ensures
        painted(with_targets(image, targets), target_points(target), TARGET_COLOR) == with_targets(
            image,
            targets.push(target),
        ),
{
    let longer = targets.push(target);
    let left = painted(with_targets(image, targets), target_points(target), TARGET_COLOR);
    let right = with_targets(image, longer);
    assert forall|i: int| 0 <= i < image.len() implies left[i] == right[i] by {
        if on_target(targets, i) {
            let t = choose|t: int|
                0 <= t < targets.len() && covers(target_points(#[trigger] targets[t]), i);
            assert(longer[t] == targets[t]);
            assert(on_target(longer, i));
        } else if covers(target_points(target), i) {
            assert(longer[targets.len() as int] == target);
            assert(on_target(longer, i));
        } else if on_target(longer, i) {
            let t = choose|t: int|
                0 <= t < longer.len() && covers(target_points(#[trigger] longer[t]), i);
            if t < targets.len() {
                assert(longer[t] == targets[t]);
            }
        }
    }
    assert(left =~= right);
}

/// Draws the reference rings over what the buffer holds.
pub fn draw_rings(buffer: &mut PixelBuffer)
    requires
        old(buffer).wf(),
    ensures
        final(buffer).wf(),
        final(buffer)@ == with_rings(old(buffer)@, 5),
{
    let color: u16 = ring_color();
    let mut index: u32 = 0;
    assert(buffer@ =~= with_rings(old(buffer)@, 0));
    while index < RING_COUNT
        invariant
            index <= 5,
            color == RING_COLOR,
            buffer.wf(),
            buffer@ == with_rings(old(buffer)@, index as int),
        decreases 5 - index,
    {
        let square: CircleBox = ring_box(index);
        let points: Vec<(i32, i32)> = stroked_circle(
            square.left,
            square.top,
            square.diameter,
            RING_STROKE,
        );
        proof {
            lemma_one_more_ring(old(buffer)@, index as int);
        }
        buffer.paint(&points, color);
        index += 1;
    }
}

/// Draws one disc for each target, in order, over what the buffer holds.
pub fn draw_targets(buffer: &mut PixelBuffer, targets: &Vec<TargetRecord>)
    requires
        old(buffer).wf(),
    ensures
        final(buffer).wf(),
        final(buffer)@ == with_targets(old(buffer)@, targets@),
{
    let color: u16 = target_color();
    let mut done: usize = 0;
    assert(buffer@ =~= with_targets(old(buffer)@, targets@.take(0)));
    while done < targets.len()
        invariant
            done <= targets.len(),
            color == TARGET_COLOR,
            buffer.wf(),
            buffer@ == with_targets(old(buffer)@, targets@.take(done as int)),
        decreases targets.len() - done,
    {
        let target: TargetRecord = targets[done];
        let square: CircleBox = target_box(target);
        let points: Vec<(i32, i32)> = filled_circle(square.left, square.top, square.diameter);
        proof {
            lemma_one_more_target(old(buffer)@, targets@.take(done as int), target);
            assert(targets@.take(done as int).push(target) =~= targets@.take(done as int + 1));
        }
        buffer.paint(&points, color);
        done += 1;
    }
    assert(targets@.take(targets.len() as int) =~= targets@);
}

/// Starts a frame: clears the buffer to the background and draws the rings.
/// What the buffer held before has no part in the result.
pub fn prepare_frame(buffer: &mut PixelBuffer)
    requires
        old(buffer).wf(),
    ensures
        final(buffer).wf(),
        final(buffer)@ == frame_image(Seq::empty()),
{
    let background: u16 = background_color();
    buffer.clear(background);
    draw_rings(buffer);
    assert(buffer@ =~= frame_image(Seq::empty()));
}

/// Composes a frame: clears the buffer to the background, draws the rings,
/// then the targets. What the buffer held before has no part in the result.
pub fn render_frame(buffer: &mut PixelBuffer, targets: &Vec<TargetRecord>)
    requires
        old(buffer).wf(),
    ensures
        final(buffer).wf(),
        final(buffer)@ == frame_image(targets@),
{
    prepare_frame(buffer);
    draw_targets(buffer, targets);
    assert(buffer@ =~= frame_image(targets@));
}

/// One pass of the renderer over a buffer: background, rings, then whatever
/// the queue holds at that moment, which is taken out of it. Records that
/// arrive later are drawn in the next pass.
pub fn render_from_queue(buffer: &mut PixelBuffer, queue: &mut TargetQueue) -> (drawn: usize)
    requires
        old(buffer).wf(),
    ensures
        final(buffer).wf(),
        final(buffer)@ == frame_image(old(queue)@),
        drawn == old(queue)@.len(),
        final(queue)@ == Seq::<TargetRecord>::empty(),
        final(queue).wf(),
        final(queue).bound() == old(queue).bound(),
        final(queue).rule() == old(queue).rule(),
{
    prepare_frame(buffer);
    let targets: Vec<TargetRecord> = queue.drain();
    draw_targets(buffer, &targets);
    assert(buffer@ =~= frame_image(targets@));
    targets.len()
}

/// A frame without targets shows the background and the rings alone: every
/// such frame is the same image.
pub proof fn lemma_empty_frame(index: int)
    requires
        0 <= index < 384000,
    ensures
        frame_image(Seq::empty())[index] == if on_ring(index) {
            RING_COLOR
        } else {
            BACKGROUND
        },
{
}

} // verus!
