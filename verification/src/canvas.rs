//! The pixel buffer: a frame's worth of 16-bit colour words, row by row, and
//! the operations that write into it.

use vstd::prelude::*;

verus! {

/// Number of pixels in a frame.
pub const FRAME_PIXELS: usize = 384000;

/// Position of the pixel in column `x` of row `y` within the buffer.
pub open spec fn pixel_index(x: int, y: int) -> int {
    y * 800 + x
}

/// The image whose every pixel holds `color`.
pub open spec fn blank_image(color: u16) -> Seq<u16> {
    Seq::new(384000, |i: int| color)
}

/// Whether `point` lies inside the frame, at position `index` of the buffer.
pub open spec fn point_hits(point: (i32, i32), index: int) -> bool {
    &&& 0 <= point.0 < 800
    &&& 0 <= point.1 < 480
    &&& pixel_index(point.0 as int, point.1 as int) == index
}

/// Whether one of `points` lies at position `index` of the buffer.
pub open spec fn covers(points: Seq<(i32, i32)>, index: int) -> bool {
    exists|k: int| 0 <= k < points.len() && point_hits(#[trigger] points[k], index)
}

/// `image` with `color` at one point. A point outside the frame changes
/// nothing.
pub open spec fn with_point(image: Seq<u16>, point: (i32, i32), color: u16) -> Seq<u16> {
    if 0 <= point.0 < 800 && 0 <= point.1 < 480 {
        image.update(pixel_index(point.0 as int, point.1 as int), color)
    } else {
        image
    }
}

/// `image` with `color` at every one of `points` that lies inside the frame;
/// all other pixels are kept.
pub open spec fn painted(image: Seq<u16>, points: Seq<(i32, i32)>, color: u16) -> Seq<u16> {
    Seq::new(
        image.len(),
        |i: int|
            if covers(points, i) {
                color
            } else {
                image[i]
            },
    )
}

/// Painting one more point is painting the longer list of points.
pub proof fn lemma_paint_one_more(
    image: Seq<u16>,
    points: Seq<(i32, i32)>,
    point: (i32, i32),
    color: u16,
)
    requires
        image.len() == 384000,
    ensures
        with_point(painted(image, points, color), point, color) == painted(
            image,
            points.push(point),
            color,
        ),
{
    let longer = points.push(point);
    let left = with_point(painted(image, points, color), point, color);
    let right = painted(image, longer, color);
    assert forall|i: int| 0 <= i < 384000 implies left[i] == right[i] by {
        if covers(points, i) {
            let k = choose|k: int| 0 <= k < points.len() && point_hits(#[trigger] points[k], i);
            assert(longer[k] == points[k]);
            assert(covers(longer, i));
        } else if point_hits(point, i) {
            assert(longer[points.len() as int] == point);
            assert(covers(longer, i));
        } else {
            if covers(longer, i) {
                let k = choose|k: int| 0 <= k < longer.len() && point_hits(#[trigger] longer[k], i);
                if k < points.len() {
                    assert(longer[k] == points[k]);
                    assert(covers(points, i));
                }
            }
        }
    }
    assert(left =~= right);
}

/// A frame-sized grid of 16-bit colour words, stored row by row from the top.
pub struct PixelBuffer {
    pixels: Vec<u16>,
}

impl View for PixelBuffer {
    type V = Seq<u16>;

    closed spec fn view(&self) -> Seq<u16> {
        self.pixels@
    }
}

impl PixelBuffer {
    /// A buffer holds exactly one frame.
    pub open spec fn wf(&self) -> bool {
        self@.len() == 384000
    }

    /// A buffer whose every pixel is zero.
    pub fn new() -> (buffer: Self)
        ensures
            buffer.wf(),
            buffer@ == blank_image(0),
    {
        let mut pixels: Vec<u16> = Vec::new();
        let mut count: usize = 0;
        while count < FRAME_PIXELS
            invariant
                count <= FRAME_PIXELS,
                pixels@.len() == count,
                forall|i: int| 0 <= i < count ==> pixels@[i] == 0,
            decreases FRAME_PIXELS - count,
        {
            pixels.push(0);
            count += 1;
        }
        assert(pixels@ =~= blank_image(0));
        PixelBuffer { pixels }
    }

    /// Sets every pixel to `color`.
    pub fn clear(&mut self, color: u16)
        requires
            old(self).wf(),
        ensures
            final(self).wf(),
            final(self)@ == blank_image(color),
    {
        let mut index: usize = 0;
        while index < FRAME_PIXELS
            invariant
                index <= FRAME_PIXELS,
                self.pixels@.len() == 384000,
                forall|i: int| 0 <= i < index ==> self.pixels@[i] == color,
            decreases FRAME_PIXELS - index,
        {
            self.pixels.set(index, color);
            index += 1;
        }
        assert(self.pixels@ =~= blank_image(color));
    }

    /// The colour at column `x` of row `y`, if that lies inside the frame.
    pub fn pixel(&self, x: i32, y: i32) -> (word: Option<u16>)
        requires
            self.wf(),
        ensures
            word == if 0 <= x < 800 && 0 <= y < 480 {
                Some(self@[pixel_index(x as int, y as int)])
            } else {
                None
            },
    {
        if 0 <= x && x < 800 && 0 <= y && y < 480 {
            let index: usize = (y as usize) * 800 + (x as usize);
            Some(self.pixels[index])
        } else {
            None
        }
    }

    /// Writes `color` at column `x` of row `y`. A position outside the frame
    /// is skipped.
    pub fn set_pixel(&mut self, x: i32, y: i32, color: u16)
        requires
            old(self).wf(),
        ensures
            final(self).wf(),
            final(self)@ == with_point(old(self)@, (x, y), color),
    {
        if 0 <= x && x < 800 && 0 <= y && y < 480 {
            let index: usize = (y as usize) * 800 + (x as usize);
            self.pixels.set(index, color);
        }
    }

    /// Writes `color` at each of `points`, skipping those outside the frame.
    pub fn paint(&mut self, points: &Vec<(i32, i32)>, color: u16)
        requires
            old(self).wf(),
        ensures
            final(self).wf(),
            final(self)@ == painted(old(self)@, points@, color),
    {
        let mut done: usize = 0;
        assert(self@ =~= painted(old(self)@, points@.take(0), color));
        while done < points.len()
            invariant
                done <= points.len(),
                self.wf(),
                old(self).wf(),
                self@ == painted(old(self)@, points@.take(done as int), color),
            decreases points.len() - done,
        {
            let point: (i32, i32) = points[done];
            proof {
                lemma_paint_one_more(old(self)@, points@.take(done as int), point, color);
                assert(points@.take(done as int).push(point) =~= points@.take(done as int + 1));
            }
            self.set_pixel(point.0, point.1, color);
            done += 1;
        }
        assert(points@.take(points.len() as int) =~= points@);
    }

    /// The pixels, row by row from the top.
    pub fn as_slice(&self) -> (words: &[u16])
        ensures
            words@ == self@,
    {
        self.pixels.as_slice()
    }
}

} // verus!
