//! The two pixel buffers by name, and the unbounded first-in-first-out queue
//! that carries finished frames from the renderer to the display writer.

use vstd::prelude::*;

verus! {

/// One of the two pixel buffers.
#[derive(Clone, Copy, Debug, PartialEq, Eq, Structural)]
pub enum BufferId {
    First,
    Second,
}

/// The buffer that is not `buffer`.
pub open spec fn other_buffer(buffer: BufferId) -> BufferId {
    match buffer {
        BufferId::First => BufferId::Second,
        BufferId::Second => BufferId::First,
    }
}

/// The buffer into which the frame with the given number is drawn: the first
/// for even numbers, the second for odd ones.
pub open spec fn buffer_of_frame(frame: u64) -> BufferId {
    if frame % 2 == 0 {
        BufferId::First
    } else {
        BufferId::Second
    }
}

/// The number of the frame after `frame`. The count starts over after the
/// largest value, which is odd, so the buffers keep alternating.
pub open spec fn frame_after(frame: u64) -> u64 {
    if frame == u64::MAX {
        0
    } else {
        (frame + 1) as u64
    }
}

impl BufferId {
    /// The other of the two buffers.
    pub fn other(self) -> (buffer: BufferId)
        ensures
            buffer == other_buffer(self),
            buffer != self,
    {
        match self {
            BufferId::First => BufferId::Second,
            BufferId::Second => BufferId::First,
        }
    }

    /// The buffer for the frame with the given number.
    pub fn for_frame(frame: u64) -> (buffer: BufferId)
        ensures
            buffer == buffer_of_frame(frame),
    {
        if frame % 2 == 0 {
            BufferId::First
        } else {
            BufferId::Second
        }
    }

    /// Position of the buffer among the two: 0 or 1.
    pub fn index(self) -> (position: usize)
        ensures
            position == match self {
                BufferId::First => 0usize,
                BufferId::Second => 1usize,
            },
    {
        match self {
            BufferId::First => 0,
            BufferId::Second => 1,
        }
    }
}

/// Successive frames are drawn into different buffers.
pub proof fn lemma_buffers_alternate(frame: u64)
    ensures
        buffer_of_frame(frame_after(frame)) == other_buffer(buffer_of_frame(frame)),
{
}

/// The queue's contents after the given frames were enqueued one by one.
pub open spec fn enqueued_all(queue: Seq<BufferId>, frames: Seq<BufferId>) -> Seq<BufferId>
    decreases frames.len(),
{
    if frames.len() == 0 {
        queue
    } else {
        enqueued_all(queue, frames.drop_last()).push(frames.last())
    }
}

/// What `count` successive dequeues hand out, first to last. Dequeuing stops
/// to hand out frames when the queue is empty.
pub open spec fn dequeued(queue: Seq<BufferId>, count: nat) -> Seq<BufferId>
    decreases count,
{
    if count == 0 || queue.len() == 0 {
        Seq::empty()
    } else {
        seq![queue.first()] + dequeued(queue.drop_first(), (count - 1) as nat)
    }
}

/// An unbounded first-in-first-out queue of finished frames, each named by
/// its buffer.
pub struct HandoffQueue {
    frames: Vec<BufferId>,
}

impl View for HandoffQueue {
    type V = Seq<BufferId>;

    /// The waiting frames, oldest first.
    closed spec fn view(&self) -> Seq<BufferId> {
        self.frames@
    }
}

impl HandoffQueue {
    /// An empty queue.
    pub fn new() -> (queue: Self)
        ensures
            queue@ == Seq::<BufferId>::empty(),
    {
        HandoffQueue { frames: Vec::new() }
    }

    /// Number of waiting frames.
    pub fn len(&self) -> (count: usize)
        ensures
            count == self@.len(),
    {
        self.frames.len()
    }

    /// Whether no frame is waiting.
    pub fn is_empty(&self) -> (empty: bool)
        ensures
            empty == (self@.len() == 0),
    {
        self.frames.len() == 0
    }

    /// Appends a finished frame.
    pub fn enqueue(&mut self, buffer: BufferId)
        ensures
            final(self)@ == old(self)@.push(buffer),
    {
        self.frames.push(buffer);
    }

    /// Removes and returns the frame that has waited longest, if there is one.
    pub fn dequeue(&mut self) -> (buffer: Option<BufferId>)
        ensures
            old(self)@.len() == 0 ==> buffer.is_none() && final(self)@ == old(self)@,
            old(self)@.len() > 0 ==> buffer == Some(old(self)@.first()) && final(self)@ == old(
                self,
            )@.drop_first(),
    {
        if self.frames.len() == 0 {
            None
        } else {
            let first: BufferId = self.frames.remove(0);
            assert(self.frames@ =~= old(self)@.drop_first());
            Some(first)
        }
    }
}

/// Enqueuing appends, in order.
pub proof fn lemma_enqueued_all(queue: Seq<BufferId>, frames: Seq<BufferId>)
    ensures
        enqueued_all(queue, frames) == queue + frames,
    decreases frames.len(),
{
    if frames.len() == 0 {
        assert(queue + frames =~= queue);
    } else {
        lemma_enqueued_all(queue, frames.drop_last());
        assert((queue + frames.drop_last()).push(frames.last()) =~= queue + frames);
    }
}

/// Dequeuing as many frames as the queue holds hands out its contents, in
/// order.
pub proof fn lemma_dequeued_all(queue: Seq<BufferId>)
    ensures
        dequeued(queue, queue.len()) == queue,
    decreases queue.len(),
{
    if queue.len() > 0 {
        lemma_dequeued_all(queue.drop_first());
        assert(seq![queue.first()] + queue.drop_first() =~= queue);
    } else {
        assert(queue =~= Seq::<BufferId>::empty());
    }
}

/// Frames enqueued in some order into an empty queue are dequeued in exactly
/// that order: none is skipped, none comes twice.
pub proof fn lemma_handoff_keeps_order(frames: Seq<BufferId>)
    ensures
        dequeued(enqueued_all(Seq::empty(), frames), frames.len()) == frames,
{
    lemma_enqueued_all(Seq::empty(), frames);
    assert(Seq::<BufferId>::empty() + frames =~= frames);
    lemma_dequeued_all(frames);
}

} // verus!
