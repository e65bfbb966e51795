//! The protocol by which the two pixel buffers change hands between the
//! renderer and the display writer.
//!
//! The renderer draws into one buffer at a time and hands it over only when
//! the writer holds nothing: no frame waits and no transfer is under way. So
//! the writer never holds more than one buffer, and never the one that is
//! being drawn into. The decisions are made here; whoever runs the threads
//! performs the drawing, the waiting and the transfer.

use crate::handoff::{buffer_of_frame, frame_after, lemma_buffers_alternate, BufferId, HandoffQueue};
use vstd::prelude::*;

verus! {

/// The state of the exchange.
pub struct ExchangeState {
    /// Number of the frame that is being drawn, or will be drawn next.
    pub frame: u64,
    /// The buffer that the renderer is drawing into.
    pub drawing: Option<BufferId>,
    /// Finished frames that the writer has not taken yet, oldest first.
    pub pending: Seq<BufferId>,
    /// The buffer that the writer is transferring to the panel.
    pub transfer: Option<BufferId>,
}

/// What one of the two sides does.
#[derive(Clone, Copy, Debug, PartialEq, Eq, Structural)]
pub enum Event {
    /// The renderer starts a frame.
    BeginFrame,
    /// The renderer hands its finished frame over.
    SubmitFrame,
    /// The writer takes the next finished frame and starts the transfer.
    TakeFrame,
    /// The writer's transfer is complete.
    FinishTransfer,
}

/// The state before anything happened.
pub open spec fn start() -> ExchangeState {
    ExchangeState { frame: 0, drawing: None, pending: Seq::empty(), transfer: None }
}

/// Whether the writer holds nothing: no frame waits, no transfer is under way.
pub open spec fn writer_idle(state: ExchangeState) -> bool {
    state.pending.len() == 0 && state.transfer.is_none()
}

/// The state after an event. An event that cannot take place leaves the
/// state as it is.
pub open spec fn step(state: ExchangeState, event: Event) -> ExchangeState {
    match event {
        Event::BeginFrame => if state.drawing.is_none() {
            ExchangeState { drawing: Some(buffer_of_frame(state.frame)), ..state }
        } else {
            state
        },
        Event::SubmitFrame => if state.drawing.is_some() && writer_idle(state) {
            ExchangeState {
                frame: frame_after(state.frame),
                drawing: None,
                pending: state.pending.push(state.drawing.unwrap()),
                transfer: state.transfer,
            }
        } else {
            state
        },
        Event::TakeFrame => if state.transfer.is_none() && state.pending.len() > 0 {
            ExchangeState {
                pending: state.pending.drop_first(),
                transfer: Some(state.pending.first()),
                ..state
            }
        } else {
            state
        },
        Event::FinishTransfer => ExchangeState { transfer: None, ..state },
    }
}

/// The state after a sequence of events, first to last.
pub open spec fn run(state: ExchangeState, events: Seq<Event>) -> ExchangeState
    decreases events.len(),
{
    if events.len() == 0 {
        state
    } else {
        step(run(state, events.drop_last()), events.last())
    }
}

/// What holds of every state that the protocol reaches: the writer's side
/// holds at most one buffer, it is not the buffer of the current frame, and
/// the renderer draws into the buffer of the current frame only.
pub open spec fn consistent(state: ExchangeState) -> bool {
    &&& state.pending.len() + (if state.transfer.is_some() { 1int } else { 0int }) <= 1
    &&& forall|i: int|
        0 <= i < state.pending.len() ==> #[trigger] state.pending[i] != buffer_of_frame(state.frame)
    &&& state.transfer.is_some() ==> state.transfer.unwrap() != buffer_of_frame(state.frame)
    &&& state.drawing.is_some() ==> state.drawing.unwrap() == buffer_of_frame(state.frame)
}

/// The buffer that the renderer draws into is neither in transfer nor
/// waiting for the writer.
pub open spec fn exclusive(state: ExchangeState) -> bool {
    state.drawing.is_some() ==> {
        &&& state.transfer != state.drawing
        &&& forall|i: int|
            0 <= i < state.pending.len() ==> #[trigger] state.pending[i] != state.drawing.unwrap()
    }
}

/// The flag that marks a transfer to the panel as under way.
pub struct PanelBusyGuard {
    held: bool,
}

impl PanelBusyGuard {
    /// Whether the flag is held.
    pub closed spec fn held(&self) -> bool {
        self.held
    }

    /// A flag that nobody holds.
    pub fn new() -> (guard: Self)
        ensures
            !guard.held(),
    {
        PanelBusyGuard { held: false }
    }

    /// Tells whether the flag is held.
    pub fn is_held(&self) -> (held: bool)
        ensures
            held == self.held(),
    {
        self.held
    }

    /// Takes the flag if nobody holds it, and says whether it was taken.
    pub fn try_acquire(&mut self) -> (taken: bool)
        ensures
            taken == !old(self).held(),
            final(self).held(),
    {
        if self.held {
            false
        } else {
            self.held = true;
            true
        }
    }

    /// Gives the flag back.
    pub fn release(&mut self)
        ensures
            !final(self).held(),
    {
        self.held = false;
    }
}

/// What became of the renderer's attempt to hand a frame over.
#[derive(Clone, Copy, Debug, PartialEq, Eq, Structural)]
pub enum Submission {
    /// The frame in the given buffer now waits for the writer.
    Sent(BufferId),
    /// The writer still holds the frame before; the renderer has to try
    /// again after the writer's transfer.
    PanelBusy,
    /// No frame was being drawn.
    NotDrawing,
}

/// The exchange of the two buffers between the renderer and the writer.
pub struct FrameExchange {
    frame: u64,
    drawing: Option<BufferId>,
    pending: HandoffQueue,
    transfer: Option<BufferId>,
    guard: PanelBusyGuard,
}

impl View for FrameExchange {
    type V = ExchangeState;

    closed spec fn view(&self) -> ExchangeState {
        ExchangeState {
            frame: self.frame,
            drawing: self.drawing,
            pending: self.pending@,
            transfer: self.transfer,
        }
    }
}

impl FrameExchange {
    /// Whether the busy flag is held.
    pub closed spec fn busy(&self) -> bool {
        self.guard.held()
    }

    /// The state is one that the protocol can reach, and the busy flag is
    /// held exactly while a transfer is under way.
    pub open spec fn wf(&self) -> bool {
        consistent(self@) && self.busy() == self@.transfer.is_some()
    }

    /// The exchange before anything happened: the renderer has both buffers.
    pub fn new() -> (exchange: Self)
        ensures
            exchange.wf(),
            exchange@ == start(),
    {
        FrameExchange {
            frame: 0,
            drawing: None,
            pending: HandoffQueue::new(),
            transfer: None,
            guard: PanelBusyGuard::new(),
        }
    }

    /// Number of the frame that is being drawn, or will be drawn next.
    pub fn frame(&self) -> (frame: u64)
        ensures
            frame == self@.frame,
    {
        self.frame
    }

    /// The buffer that the renderer is drawing into.
    pub fn drawing(&self) -> (buffer: Option<BufferId>)
        ensures
            buffer == self@.drawing,
    {
        self.drawing
    }

    /// The buffer that the writer is transferring.
    pub fn in_transfer(&self) -> (buffer: Option<BufferId>)
        ensures
            buffer == self@.transfer,
    {
        self.transfer
    }

    /// Whether a transfer is under way.
    pub fn is_busy(&self) -> (busy: bool)
        requires
            self.wf(),
        ensures
            busy == self@.transfer.is_some(),
    {
        self.guard.is_held()
    }

    /// Number of finished frames that wait for the writer.
    pub fn pending(&self) -> (count: usize)
        ensures
            count == self@.pending.len(),
    {
        self.pending.len()
    }

    /// The renderer starts a frame. It is given the buffer of the current
    /// frame's parity, which the writer does not hold; it is given nothing
    /// only while the frame it began earlier is still unsubmitted.
    pub fn begin_frame(&mut self) -> (buffer: Option<BufferId>)
        requires
            old(self).wf(),
        ensures
            final(self).wf(),
            final(self)@ == step(old(self)@, Event::BeginFrame),
            buffer == if old(self)@.drawing.is_none() {
                Some(buffer_of_frame(old(self)@.frame))
            } else {
                None
            },
            buffer.is_some() ==> old(self)@.transfer != buffer && !old(self)@.pending.contains(
                buffer.unwrap(),
            ),
    {
        proof {
            lemma_step_consistent(self@, Event::BeginFrame);
        }
        if self.drawing.is_some() {
            None
        } else {
            let buffer: BufferId = BufferId::for_frame(self.frame);
            self.drawing = Some(buffer);
            Some(buffer)
        }
    }

    /// The renderer hands its finished frame over. The frame is enqueued, and
    /// the frame number advanced, only if the writer holds nothing; else the
    /// renderer keeps the buffer and has to try again.
    pub fn submit_frame(&mut self) -> (outcome: Submission)
        requires
            old(self).wf(),
        ensures
            final(self).wf(),
            final(self)@ == step(old(self)@, Event::SubmitFrame),
            outcome == if old(self)@.drawing.is_none() {
                Submission::NotDrawing
            } else if writer_idle(old(self)@) {
                Submission::Sent(old(self)@.drawing.unwrap())
            } else {
                Submission::PanelBusy
            },
    {
        proof {
            lemma_step_consistent(self@, Event::SubmitFrame);
        }
        match self.drawing {
            None => Submission::NotDrawing,
            Some(buffer) => {
                if self.guard.is_held() || !self.pending.is_empty() {
                    Submission::PanelBusy
                } else {
                    self.pending.enqueue(buffer);
                    self.drawing = None;
                    self.frame = if self.frame == u64::MAX {
                        0
                    } else {
                        self.frame + 1
                    };
                    Submission::Sent(buffer)
                }
            },
        }
    }

    /// The writer asks for the next finished frame. If one waits and no
    /// transfer is under way, the writer is given its buffer and the busy
    /// flag is taken; else it is given nothing and has to wait.
    pub fn take_frame(&mut self) -> (buffer: Option<BufferId>)
        requires
            old(self).wf(),
        ensures
            final(self).wf(),
            final(self)@ == step(old(self)@, Event::TakeFrame),
            buffer == if old(self)@.transfer.is_none() && old(self)@.pending.len() > 0 {
                Some(old(self)@.pending.first())
            } else {
                None
            },
            buffer.is_some() ==> buffer != old(self)@.drawing,
    {
        proof {
            lemma_step_consistent(self@, Event::TakeFrame);
            lemma_consistent_exclusive(self@);
        }
        if self.guard.is_held() {
            return None;
        }
        let next: Option<BufferId> = self.pending.dequeue();
        if next.is_some() {
            self.guard.try_acquire();
            self.transfer = next;
        }
        next
    }

    /// The writer reports that its transfer is complete. The busy flag is
    /// given back, and the buffer, returned here, is the renderer's again.
    pub fn finish_transfer(&mut self) -> (buffer: Option<BufferId>)
        requires
            old(self).wf(),
        ensures
            final(self).wf(),
            final(self)@ == step(old(self)@, Event::FinishTransfer),
            buffer == old(self)@.transfer,
    {
        proof {
            lemma_step_consistent(self@, Event::FinishTransfer);
        }
        let done: Option<BufferId> = self.transfer;
        self.transfer = None;
        self.guard.release();
        done
    }
}

/// Every event keeps the state consistent.
pub proof fn lemma_step_consistent(state: ExchangeState, event: Event)
    requires
        consistent(state),
    ensures
        consistent(step(state, event)),
{
    lemma_buffers_alternate(state.frame);
}

/// In a consistent state the renderer and the writer hold different buffers.
pub proof fn lemma_consistent_exclusive(state: ExchangeState)
    requires
        consistent(state),
    ensures
        exclusive(state),
        state.pending.len() <= 1,
{
}

/// Whatever the two sides do, in whatever order, the buffer held by the
/// writer is at no moment the buffer that the renderer draws into, and at
/// most one frame waits.
pub proof fn lemma_never_shared(events: Seq<Event>)
    ensures
        consistent(run(start(), events)),
        exclusive(run(start(), events)),
        run(start(), events).pending.len() <= 1,
    decreases events.len(),
{
    if events.len() > 0 {
        lemma_never_shared(events.drop_last());
        lemma_step_consistent(run(start(), events.drop_last()), events.last());
    }
    lemma_consistent_exclusive(run(start(), events));
}

/// A refused submission does not wait for ever: once the writer has taken
/// the frame that waits and completed its transfer, which are at most two
/// steps of the writer, the same frame is accepted.
pub proof fn lemma_wait_ends(state: ExchangeState)
    requires
        consistent(state),
        state.drawing.is_some(),
        !writer_idle(state),
    ensures
        ({
            let taken = step(state, Event::TakeFrame);
            let done = step(taken, Event::FinishTransfer);
            &&& taken.transfer.is_some()
            &&& writer_idle(done)
            &&& done.drawing == state.drawing
            &&& step(done, Event::SubmitFrame).pending == seq![state.drawing.unwrap()]
        }),
{
    let taken = step(state, Event::TakeFrame);
    let done = step(taken, Event::FinishTransfer);
    assert(taken.pending.len() == 0);
    assert(done.pending.push(state.drawing.unwrap()) =~= seq![state.drawing.unwrap()]);
}

} // verus!
