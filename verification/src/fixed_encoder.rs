//! The encoder of the fixed stream, which encodes every frame of the camera.

use crate::format::{HEIGHT, Size, WIDTH};
use std::sync::Arc;
use vstd::prelude::*;

verus! {

/// What came of an action.
#[derive(Debug)]
pub enum FixedEvent {
    /// The encoder gave a buffer: one of mapped memory, with its number of bytes,
    /// or one of another kind.
    Buffer(Option<usize>),
    /// The camera gave a frame.
    Frame(Arc<Vec<u8>>),
    /// Any other action was carried out.
    Done,
    /// The action failed.
    Failed,
}

/// What to do next.
#[derive(Debug)]
pub enum FixedAction {
    /// Create an encoder for this size.
    Create(Size),
    /// Start the encoder that was created.
    Start,
    /// Take an empty buffer from the encoder, giving back the one that is held.
    TakeBuffer,
    /// Wait for a frame of the camera.
    ReceiveFrame,
    /// Copy the frame into the buffer and queue it to the encoder.
    QueueFrame(Arc<Vec<u8>>),
    /// End the loop with the error of the action that failed.
    ReturnError,
    /// Panic: the server is not meant to go on from here.
    Abort,
}

/// Where the loop stands.
#[derive(Debug)]
pub enum FixedState {
    /// The encoder is being created.
    Creating,
    /// The encoder is being started.
    Starting,
    /// A buffer is being taken.
    TakingBuffer,
    /// A frame is awaited that fills a buffer of this many bytes.
    AwaitingFrame { capacity: usize },
    /// The frame is being queued.
    Queueing,
    /// The loop has ended.
    Finished,
}

impl FixedState {
    /// Whether the event can come of the action that led to this state.
    pub open spec fn accepts(self, event: FixedEvent) -> bool {
        match self {
            FixedState::TakingBuffer => event is Buffer || event is Failed,
            FixedState::AwaitingFrame { .. } => event is Frame || event is Failed,
            FixedState::Finished => false,
            _ => event is Done || event is Failed,
        }
    }

    /// Tells whether the event can come of the action that led to this state.
    pub fn can_accept(&self, event: &FixedEvent) -> (result: bool)
        ensures
            result == self.accepts(*event),
    {
        match (self, event) {
            (FixedState::Finished, _) => false,
            (_, FixedEvent::Failed) => true,
            (FixedState::TakingBuffer, FixedEvent::Buffer(_)) => true,
            (FixedState::TakingBuffer, _) => false,
            (FixedState::AwaitingFrame { .. }, FixedEvent::Frame(_)) => true,
            (FixedState::AwaitingFrame { .. }, _) => false,
            (_, FixedEvent::Done) => true,
            _ => false,
        }
    }
}

/// The state and the action at the beginning of the loop.
pub open spec fn fixed_first() -> (FixedState, FixedAction) {
    (FixedState::Creating, FixedAction::Create(Size { width: 1920, height: 1080 }))
}

/// The state after an event, and the action that leads there. A frame that does
/// not fill its buffer is not meant to be survived, nor is a buffer or a frame that
/// does not come; any other failure ends the loop with its error.
pub open spec fn fixed_next(state: FixedState, event: FixedEvent) -> (FixedState, FixedAction) {
    match (state, event) {
        (FixedState::TakingBuffer, FixedEvent::Failed) => (
            FixedState::Finished,
            FixedAction::Abort,
        ),
        (FixedState::AwaitingFrame { .. }, FixedEvent::Failed) => (
            FixedState::Finished,
            FixedAction::Abort,
        ),
        (_, FixedEvent::Failed) => (FixedState::Finished, FixedAction::ReturnError),
        (FixedState::Creating, _) => (FixedState::Starting, FixedAction::Start),
        (FixedState::TakingBuffer, FixedEvent::Buffer(Some(capacity))) => (
            FixedState::AwaitingFrame { capacity },
            FixedAction::ReceiveFrame,
        ),
        (FixedState::AwaitingFrame { capacity }, FixedEvent::Frame(frame)) => if frame@.len()
            == capacity {
            (FixedState::Queueing, FixedAction::QueueFrame(frame))
        } else {
            (FixedState::Finished, FixedAction::Abort)
        },
        // A buffer of another kind is given back, and the next one is taken.
        _ => (FixedState::TakingBuffer, FixedAction::TakeBuffer),
    }
}

/// Begins the loop: an encoder for the full image size is created first.
pub fn fixed_start() -> (first: (FixedState, FixedAction))
    ensures
        first == fixed_first(),
{
    (FixedState::Creating, FixedAction::Create(Size { width: WIDTH, height: HEIGHT }))
}

/// Takes what came of the last action, and says what to do next.
pub fn fixed_step(state: FixedState, event: FixedEvent) -> (next: (FixedState, FixedAction))
    requires
        state.accepts(event),
    ensures
        next == fixed_next(state, event),
{
    match (state, event) {
        (FixedState::TakingBuffer, FixedEvent::Failed) => (
            FixedState::Finished,
            FixedAction::Abort,
        ),
        (FixedState::AwaitingFrame { .. }, FixedEvent::Failed) => (
            FixedState::Finished,
            FixedAction::Abort,
        ),
        (_, FixedEvent::Failed) => (FixedState::Finished, FixedAction::ReturnError),
        (FixedState::Creating, _) => (FixedState::Starting, FixedAction::Start),
        (FixedState::TakingBuffer, FixedEvent::Buffer(Some(capacity))) => (
            FixedState::AwaitingFrame { capacity },
            FixedAction::ReceiveFrame,
        ),
        (FixedState::AwaitingFrame { capacity }, FixedEvent::Frame(frame)) => {
            if frame.len() == capacity {
                (FixedState::Queueing, FixedAction::QueueFrame(frame))
            } else {
                (FixedState::Finished, FixedAction::Abort)
            }
        },
        _ => (FixedState::TakingBuffer, FixedAction::TakeBuffer),
    }
}

/// Whether the events can follow each other, from the beginning of the loop.
pub open spec fn fixed_admits(events: Seq<FixedEvent>) -> bool
    decreases events.len(),
{
    events.len() == 0 || (fixed_admits(events.drop_last()) && fixed_after(
        events.drop_last(),
    ).0.accepts(events.last()))
}

/// The state and the action after the events, from the beginning of the loop.
pub open spec fn fixed_after(events: Seq<FixedEvent>) -> (FixedState, FixedAction)
    decreases events.len(),
{
    if events.len() == 0 {
        fixed_first()
    } else {
        fixed_next(fixed_after(events.drop_last()).0, events.last())
    }
}

/// The frames that the camera gave, in order.
pub open spec fn fixed_received(events: Seq<FixedEvent>) -> Seq<Arc<Vec<u8>>>
    decreases events.len(),
{
    if events.len() == 0 {
        Seq::empty()
    } else if let FixedEvent::Frame(frame) = events.last() {
        fixed_received(events.drop_last()).push(frame)
    } else {
        fixed_received(events.drop_last())
    }
}

/// The frames that were queued to the encoder, in order.
pub open spec fn fixed_queued(events: Seq<FixedEvent>) -> Seq<Arc<Vec<u8>>>
    decreases events.len(),
{
    if events.len() == 0 {
        Seq::empty()
    } else if let FixedAction::QueueFrame(frame) = fixed_after(events).1 {
        fixed_queued(events.drop_last()).push(frame)
    } else {
        fixed_queued(events.drop_last())
    }
}

/// Every frame of the camera is queued, once and in the order in which it came,
/// unless the loop was aborted; then the last frame may be missing.
pub proof fn law_every_frame_queued(events: Seq<FixedEvent>)
    requires
        fixed_admits(events),
    ensures
        fixed_queued(events) == fixed_received(events) || (fixed_after(events).1 is Abort
            && fixed_received(events).len() > 0 && fixed_queued(events) == fixed_received(
            events,
        ).drop_last()),
    decreases events.len(),
{
    if events.len() > 0 {
        let before = events.drop_last();
        law_every_frame_queued(before);
        lemma_fixed_remembers(before);
        if let FixedEvent::Frame(frame) = events.last() {
            assert(fixed_received(events).drop_last() =~= fixed_received(before));
        }
    }
}

/// The size of the buffer that was taken last, if it was one of mapped memory.
pub open spec fn fixed_capacity(events: Seq<FixedEvent>) -> Option<usize>
    decreases events.len(),
{
    if events.len() == 0 {
        None
    } else if let FixedEvent::Buffer(capacity) = events.last() {
        capacity
    } else {
        fixed_capacity(events.drop_last())
    }
}

/// Whether the event is an outcome of the action.
pub open spec fn fixed_answers(action: FixedAction, event: FixedEvent) -> bool {
    match action {
        FixedAction::TakeBuffer => event is Buffer || event is Failed,
        FixedAction::ReceiveFrame => event is Frame || event is Failed,
        FixedAction::ReturnError | FixedAction::Abort => false,
        _ => event is Done || event is Failed,
    }
}

/// What the state remembers of the events, and which action leads to it.
spec fn fixed_remembers(events: Seq<FixedEvent>) -> bool {
    let (state, action) = fixed_after(events);
    match state {
        FixedState::Creating => action is Create && events.len() == 0,
        FixedState::Starting => action is Start && events.len() == 1,
        FixedState::TakingBuffer => action is TakeBuffer,
        FixedState::AwaitingFrame { capacity } => {
            &&& action is ReceiveFrame
            &&& fixed_capacity(events) == Some(capacity)
        },
        FixedState::Queueing => action is QueueFrame,
        FixedState::Finished => action is ReturnError || action is Abort,
    }
}

proof fn lemma_fixed_remembers(events: Seq<FixedEvent>)
    requires
        fixed_admits(events),
    ensures
        fixed_remembers(events),
    decreases events.len(),
{
    if events.len() > 0 {
        lemma_fixed_remembers(events.drop_last());
    }
}

/// Every outcome of the action that the loop asks for is an event that it then accepts.
pub proof fn law_fixed_accepts_answers(events: Seq<FixedEvent>, event: FixedEvent)
    requires
        fixed_admits(events),
        fixed_answers(fixed_after(events).1, event),
    ensures
        fixed_admits(events.push(event)),
{
    lemma_fixed_remembers(events);
    assert(events.push(event).drop_last() =~= events);
}

/// A frame is queued only into a buffer of mapped memory that it fills exactly.
pub proof fn law_fixed_frame_fits(events: Seq<FixedEvent>, frame: Arc<Vec<u8>>)
    requires
        fixed_admits(events),
        fixed_after(events).1 == FixedAction::QueueFrame(frame),
    ensures
        fixed_capacity(events) matches Some(capacity) && capacity == frame@.len(),
{
    lemma_fixed_remembers(events.drop_last());
}

/// The loop ends with an error when the encoder cannot be created or started or a
/// frame cannot be queued. It is aborted when no buffer or no frame comes, or when
/// a frame does not fill its buffer. Nothing else ends it.
pub proof fn law_fixed_failures(events: Seq<FixedEvent>)
    requires
        fixed_admits(events),
        events.len() > 0,
    ensures
        ({
            let (last, action) = (events.last(), fixed_after(events.drop_last()).1);
            let unfit = last matches FixedEvent::Frame(frame) && fixed_capacity(
                events,
            ) matches Some(capacity) && frame@.len() != capacity;
            let missing = last is Failed && (action is TakeBuffer || action is ReceiveFrame);
            &&& fixed_after(events).1 is Abort <==> unfit || missing
            &&& fixed_after(events).1 is ReturnError <==> last is Failed && !missing
        }),
{
    lemma_fixed_remembers(events.drop_last());
}

/// The loop takes a buffer as the outcome of taking one and a frame as the outcome of
/// awaiting one. Any other action can be carried out, and every action can fail.
pub proof fn law_fixed_accepts_only_answers(events: Seq<FixedEvent>, event: FixedEvent)
    requires
        fixed_admits(events),
    ensures
        ({
            let asked = fixed_after(events).1;
            let accepted = fixed_admits(events.push(event));
            let ended = asked is ReturnError || asked is Abort;
            &&& event is Buffer ==> (accepted <==> asked is TakeBuffer)
            &&& event is Frame ==> (accepted <==> asked is ReceiveFrame)
            &&& event is Failed ==> (accepted <==> !ended)
            &&& event is Done ==> (accepted <==> !ended && !(asked is TakeBuffer) && !(
            asked is ReceiveFrame))
        }),
{
    lemma_fixed_remembers(events);
    assert(events.push(event).drop_last() =~= events);
}

/// One encoder is created, for full images, and started once it is there.
pub proof fn law_fixed_encoder_created_once(events: Seq<FixedEvent>, size: Size)
    requires
        fixed_admits(events),
    ensures
        fixed_after(events).1 == FixedAction::Create(size) <==> events.len() == 0 && size.width
            == 1920 && size.height == 1080,
        fixed_after(events).1 is Start <==> events.len() == 1 && events.last() is Done,
{
    lemma_fixed_remembers(events);
    if events.len() > 0 {
        lemma_fixed_remembers(events.drop_last());
    }
}

/// Every frame that fills its buffer, however large, is queued as it came, and at
/// once. A frame is awaited for each buffer of mapped memory. A buffer is taken when
/// the encoder is started, when a frame was queued, and when the last buffer was of
/// another kind.
pub proof fn law_fixed_encoder_feeds_on(events: Seq<FixedEvent>, frame: Arc<Vec<u8>>)
    requires
        fixed_admits(events),
    ensures
        ({
            let next = fixed_after(events).1;
            let n = events.len();
            let fits = match fixed_capacity(events) {
                Some(capacity) => frame@.len() == capacity,
                None => false,
            };
            &&& next == FixedAction::QueueFrame(frame) <==> n > 0 && events.last()
                == FixedEvent::Frame(frame) && fits
            &&& next is ReceiveFrame <==> n > 0 && match events.last() {
                FixedEvent::Buffer(capacity) => capacity is Some,
                _ => false,
            }
            &&& next is TakeBuffer <==> (n >= 2 && events.last() is Done) || (n > 0 && events.last()
                == FixedEvent::Buffer(None::<usize>))
        }),
{
    lemma_fixed_remembers(events);
    if events.len() > 0 {
        lemma_fixed_remembers(events.drop_last());
    }
}

} // verus!
