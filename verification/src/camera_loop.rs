//! The loop that runs the camera.
//!
//! `camera_step` takes what came of the last action and says what to do next.
//! First the camera is configured and started. Then, each time round, a waiting
//! command is obeyed, a completed request is awaited, the frame of each stream is
//! read and delivered, and the request is queued again.

use crate::buffer::ReadError;
use crate::camera::STREAMS;
use crate::command::{CameraCommand, CameraResizeRequest};
use vstd::prelude::*;

verus! {

/// What the camera says of a configuration.
#[derive(Debug, Clone, Copy, PartialEq, Eq, Structural)]
pub enum ConfigurationStatus {
    Valid,
    /// The configuration was changed into a valid one.
    Adjusted,
    Invalid,
}

/// What came of an action.
#[derive(Debug)]
pub enum CameraEvent {
    /// The configuration was validated.
    Validated(ConfigurationStatus),
    /// This many requests were created.
    Created(usize),
    /// The command channel was looked at: a command that was not seen before, or none.
    Command(Option<CameraCommand>),
    /// A request was completed.
    Completed,
    /// The frame of a stream was read, or not.
    Read(Result<Vec<u8>, ReadError>),
    /// Any other action was carried out.
    Done,
    /// The action failed.
    Failed,
}

/// What to do next.
#[derive(Debug)]
pub enum CameraAction {
    /// Configure both streams as they are at the start.
    ConfigureInitially,
    /// Have the camera validate the configuration.
    Validate,
    /// Panic: the camera cannot do what is asked of it.
    Reject,
    /// Acquire the camera.
    Acquire,
    /// Hand the configuration to the camera.
    Apply,
    /// Create the capture requests, with buffers of both streams.
    CreateRequests,
    /// Start capturing.
    StartCapture,
    /// Queue the request of this number, of those that were created last.
    QueueRequest(usize),
    /// Have the camera report the requests that it completes.
    Subscribe,
    /// Look at the command channel, without waiting.
    CheckCommand,
    /// Stop capturing.
    StopCapture,
    /// Configure the variable stream as the resize asks for.
    ConfigureResized(CameraResizeRequest),
    /// Wait for a completed request.
    AwaitRequest,
    /// Read the frame of this stream out of the request.
    ReadStream(usize),
    /// Send the frame to the encoder of this stream.
    Deliver(usize, Vec<u8>),
    /// Queue the completed request again, with its buffers.
    Requeue,
    /// End the loop with the error of the action that failed.
    ReturnError,
    /// Panic: the server is not meant to go on from here.
    Abort,
}

/// Where the loop stands. `resized` tells a camera that is started anew for a
/// resize from one that is started for the first time.
#[derive(Debug, Clone, Copy, PartialEq, Eq, Structural)]
pub enum CameraState {
    /// Both streams are being configured for the first time.
    Configuring,
    /// The configuration is being validated.
    Validating,
    /// The camera is being acquired.
    Acquiring,
    /// The configuration is being handed to the camera.
    Applying { resized: bool },
    /// The requests are being created.
    Creating { resized: bool },
    /// Capturing is being started; this many requests are to be queued.
    Starting { resized: bool, count: usize },
    /// The request of this number is being queued, out of `count` of them.
    Queueing { resized: bool, number: usize, count: usize },
    /// The camera is being made to report completed requests.
    Subscribing,
    /// The command channel is being looked at.
    Checking,
    /// Capturing is being stopped for a resize.
    Stopping { request: CameraResizeRequest },
    /// The variable stream is being configured for a resize.
    Resizing,
    /// A completed request is awaited.
    Awaiting,
    /// The frame of this stream is being read.
    Reading(usize),
    /// The frame of this stream is being delivered.
    Delivering(usize),
    /// The request is being queued again.
    Requeueing,
    /// The loop has ended.
    Stopped,
}

impl CameraState {
    /// Whether the event can come of the action that led to this state.
    pub open spec fn accepts(self, event: CameraEvent) -> bool {
        match self {
            CameraState::Validating => event is Validated,
            CameraState::Creating { .. } => event is Created || event is Failed,
            CameraState::Subscribing => event is Done,
            CameraState::Checking => event is Command || event is Failed,
            CameraState::Awaiting => event is Completed || event is Failed,
            CameraState::Reading(_) => event is Read || event is Failed,
            CameraState::Stopped => false,
            _ => event is Done || event is Failed,
        }
    }

    /// Tells whether the event can come of the action that led to this state.
    pub fn can_accept(&self, event: &CameraEvent) -> (result: bool)
        ensures
            result == self.accepts(*event),
    {
        match (self, event) {
            (CameraState::Stopped, _) => false,
            (CameraState::Validating, CameraEvent::Validated(_)) => true,
            (CameraState::Validating, _) => false,
            (CameraState::Subscribing, CameraEvent::Done) => true,
            (CameraState::Subscribing, _) => false,
            (_, CameraEvent::Failed) => true,
            (CameraState::Creating { .. }, CameraEvent::Created(_)) => true,
            (CameraState::Creating { .. }, _) => false,
            (CameraState::Checking, CameraEvent::Command(_)) => true,
            (CameraState::Checking, _) => false,
            (CameraState::Awaiting, CameraEvent::Completed) => true,
            (CameraState::Awaiting, _) => false,
            (CameraState::Reading(_), CameraEvent::Read(_)) => true,
            (CameraState::Reading(_), _) => false,
            (_, CameraEvent::Done) => true,
            _ => false,
        }
    }
}

/// The state and the action at the beginning of the loop.
pub open spec fn camera_first() -> (CameraState, CameraAction) {
    (CameraState::Configuring, CameraAction::ConfigureInitially)
}

/// What follows once `number` of the created requests are queued: the next one is
/// queued. After the last, the camera runs: it is made to report its requests if
/// this is its first start, and its next request is awaited after a resize.
pub open spec fn after_queued(resized: bool, number: int, count: usize) -> (
    CameraState,
    CameraAction,
) {
    if number < count {
        (
            CameraState::Queueing { resized, number: number as usize, count },
            CameraAction::QueueRequest(number as usize),
        )
    } else if resized {
        (CameraState::Awaiting, CameraAction::AwaitRequest)
    } else {
        (CameraState::Subscribing, CameraAction::Subscribe)
    }
}

/// What follows when the loop is done with a stream of a request: the next
/// stream is read, and after the last one the request is queued again.
pub open spec fn after_stream(stream: usize) -> (CameraState, CameraAction) {
    if stream + 1 < STREAMS {
        let next = (stream + 1) as usize;
        (CameraState::Reading(next), CameraAction::ReadStream(next))
    } else {
        (CameraState::Requeueing, CameraAction::Requeue)
    }
}

/// What to do about a failure: the error is returned, but for a stream that cannot
/// be configured, a request that does not come and a buffer that cannot be looked
/// at, which are not meant to be survived.
pub open spec fn camera_failed(state: CameraState) -> (CameraState, CameraAction) {
    match state {
        CameraState::Configuring
        | CameraState::Resizing
        | CameraState::Awaiting
        | CameraState::Reading(_) => (CameraState::Stopped, CameraAction::Abort),
        _ => (CameraState::Stopped, CameraAction::ReturnError),
    }
}

/// The state after an event, and the action that leads there.
pub open spec fn camera_next(state: CameraState, event: CameraEvent) -> (
    CameraState,
    CameraAction,
) {
    match (state, event) {
        (state, CameraEvent::Failed) => camera_failed(state),
        (CameraState::Configuring, _) => (CameraState::Validating, CameraAction::Validate),
        (CameraState::Validating, CameraEvent::Validated(ConfigurationStatus::Invalid)) => (
            CameraState::Stopped,
            CameraAction::Reject,
        ),
        (CameraState::Validating, _) => (CameraState::Acquiring, CameraAction::Acquire),
        (CameraState::Acquiring, _) => (
            CameraState::Applying { resized: false },
            CameraAction::Apply,
        ),
        (CameraState::Applying { resized }, _) => (
            CameraState::Creating { resized },
            CameraAction::CreateRequests,
        ),
        (CameraState::Creating { resized }, CameraEvent::Created(count)) => (
            CameraState::Starting { resized, count },
            CameraAction::StartCapture,
        ),
        (CameraState::Starting { resized, count }, _) => after_queued(resized, 0, count),
        (CameraState::Queueing { resized, number, count }, _) => after_queued(
            resized,
            number + 1,
            count,
        ),
        (CameraState::Checking, CameraEvent::Command(Some(CameraCommand::Resize(request)))) => (
            CameraState::Stopping { request },
            CameraAction::StopCapture,
        ),
        (CameraState::Checking, _) => (CameraState::Awaiting, CameraAction::AwaitRequest),
        (CameraState::Stopping { request }, _) => (
            CameraState::Resizing,
            CameraAction::ConfigureResized(request),
        ),
        (CameraState::Resizing, _) => (CameraState::Applying { resized: true }, CameraAction::Apply),
        (CameraState::Awaiting, _) => (CameraState::Reading(0), CameraAction::ReadStream(0)),
        (CameraState::Reading(stream), CameraEvent::Read(Ok(data))) => (
            CameraState::Delivering(stream),
            CameraAction::Deliver(stream, data),
        ),
        // A frame that could not be read is skipped.
        (CameraState::Reading(stream), _) | (CameraState::Delivering(stream), _) => after_stream(
            stream,
        ),
        _ => (CameraState::Checking, CameraAction::CheckCommand),
    }
}

/// Begins the loop.
pub fn camera_start() -> (first: (CameraState, CameraAction))
    ensures
        first == camera_first(),
{
    (CameraState::Configuring, CameraAction::ConfigureInitially)
}

fn leave_stream(stream: usize) -> (next: (CameraState, CameraAction))
    ensures
        next == after_stream(stream),
{
    if stream < STREAMS - 1 {
        (CameraState::Reading(stream + 1), CameraAction::ReadStream(stream + 1))
    } else {
        (CameraState::Requeueing, CameraAction::Requeue)
    }
}

fn finish_queueing(resized: bool) -> (next: (CameraState, CameraAction))
    ensures
        next == after_queued(resized, 0, 0),
{
    if resized {
        (CameraState::Awaiting, CameraAction::AwaitRequest)
    } else {
        (CameraState::Subscribing, CameraAction::Subscribe)
    }
}

fn fail(state: CameraState) -> (next: (CameraState, CameraAction))
    ensures
        next == camera_failed(state),
{
    match state {
        CameraState::Configuring => (CameraState::Stopped, CameraAction::Abort),
        CameraState::Resizing => (CameraState::Stopped, CameraAction::Abort),
        CameraState::Awaiting => (CameraState::Stopped, CameraAction::Abort),
        CameraState::Reading(_) => (CameraState::Stopped, CameraAction::Abort),
        _ => (CameraState::Stopped, CameraAction::ReturnError),
    }
}

/// Takes what came of the last action, and says what to do next.
pub fn camera_step(state: CameraState, event: CameraEvent) -> (next: (CameraState, CameraAction))
    requires
        state.accepts(event),
    ensures
        next == camera_next(state, event),
{
    match (state, event) {
        (state, CameraEvent::Failed) => fail(state),
        (CameraState::Configuring, _) => (CameraState::Validating, CameraAction::Validate),
        (CameraState::Validating, CameraEvent::Validated(ConfigurationStatus::Invalid)) => (
            CameraState::Stopped,
            CameraAction::Reject,
        ),
        (CameraState::Validating, _) => (CameraState::Acquiring, CameraAction::Acquire),
        (CameraState::Acquiring, _) => (
            CameraState::Applying { resized: false },
            CameraAction::Apply,
        ),
        (CameraState::Applying { resized }, _) => (
            CameraState::Creating { resized },
            CameraAction::CreateRequests,
        ),
        (CameraState::Creating { resized }, CameraEvent::Created(count)) => (
            CameraState::Starting { resized, count },
            CameraAction::StartCapture,
        ),
        (CameraState::Starting { resized, count }, _) => {
            if count > 0 {
                (
                    CameraState::Queueing { resized, number: 0, count },
                    CameraAction::QueueRequest(0),
                )
            } else {
                finish_queueing(resized)
            }
        },
        (CameraState::Queueing { resized, number, count }, _) => {
            if number < count && number + 1 < count {
                (
                    CameraState::Queueing { resized, number: number + 1, count },
                    CameraAction::QueueRequest(number + 1),
                )
            } else {
                finish_queueing(resized)
            }
        },
        (CameraState::Checking, CameraEvent::Command(Some(CameraCommand::Resize(request)))) => (
            CameraState::Stopping { request },
            CameraAction::StopCapture,
        ),
        (CameraState::Checking, _) => (CameraState::Awaiting, CameraAction::AwaitRequest),
        (CameraState::Stopping { request }, _) => (
            CameraState::Resizing,
            CameraAction::ConfigureResized(request),
        ),
        (CameraState::Resizing, _) => (CameraState::Applying { resized: true }, CameraAction::Apply),
        (CameraState::Awaiting, _) => (CameraState::Reading(0), CameraAction::ReadStream(0)),
        (CameraState::Reading(stream), CameraEvent::Read(Ok(data))) => (
            CameraState::Delivering(stream),
            CameraAction::Deliver(stream, data),
        ),
        (CameraState::Reading(stream), _) => leave_stream(stream),
        (CameraState::Delivering(stream), _) => leave_stream(stream),
        _ => (CameraState::Checking, CameraAction::CheckCommand),
    }
}

/// Whether the events can follow each other, from the beginning of the loop.
pub open spec fn camera_admits(events: Seq<CameraEvent>) -> bool
    decreases events.len(),
{
    events.len() == 0 || (camera_admits(events.drop_last()) && camera_after(
        events.drop_last(),
    ).0.accepts(events.last()))
}

/// The state and the action after the events, from the beginning of the loop.
pub open spec fn camera_after(events: Seq<CameraEvent>) -> (CameraState, CameraAction)
    decreases events.len(),
{
    if events.len() == 0 {
        camera_first()
    } else {
        camera_next(camera_after(events.drop_last()).0, events.last())
    }
}

/// How many requests were created last.
pub open spec fn last_created(events: Seq<CameraEvent>) -> nat
    decreases events.len(),
{
    if events.len() == 0 {
        0
    } else if let CameraEvent::Created(count) = events.last() {
        count as nat
    } else {
        last_created(events.drop_last())
    }
}

/// The numbers of the requests that were queued since requests were created last,
/// in order.
pub open spec fn numbers_queued(events: Seq<CameraEvent>) -> Seq<usize>
    decreases events.len(),
{
    if events.len() == 0 || events.last() is Created {
        Seq::empty()
    } else if let CameraAction::QueueRequest(number) = camera_after(events).1 {
        numbers_queued(events.drop_last()).push(number)
    } else {
        numbers_queued(events.drop_last())
    }
}

/// The numbers from 0 up to, but without, `count`.
pub open spec fn numbers_below(count: nat) -> Seq<usize> {
    Seq::new(count, |i: int| i as usize)
}

/// Whether the camera captures in this state, with all its requests queued or
/// handed out.
pub open spec fn camera_runs(state: CameraState) -> bool {
    match state {
        CameraState::Subscribing
        | CameraState::Checking
        | CameraState::Awaiting
        | CameraState::Reading(_)
        | CameraState::Delivering(_)
        | CameraState::Requeueing => true,
        _ => false,
    }
}

/// How many requests were completed.
pub open spec fn requests_completed(events: Seq<CameraEvent>) -> nat
    decreases events.len(),
{
    if events.len() == 0 {
        0
    } else {
        requests_completed(events.drop_last()) + if events.last() is Completed {
            1nat
        } else {
            0nat
        }
    }
}

/// How many requests were queued again.
pub open spec fn requests_requeued(events: Seq<CameraEvent>) -> nat
    decreases events.len(),
{
    if events.len() == 0 {
        0
    } else {
        requests_requeued(events.drop_last()) + if camera_after(events).1 is Requeue {
            1nat
        } else {
            0nat
        }
    }
}

/// The streams that were read, in order.
pub open spec fn streams_read(events: Seq<CameraEvent>) -> Seq<usize>
    decreases events.len(),
{
    if events.len() == 0 {
        Seq::empty()
    } else if let CameraAction::ReadStream(stream) = camera_after(events).1 {
        streams_read(events.drop_last()).push(stream)
    } else {
        streams_read(events.drop_last())
    }
}

/// The frames that could be read, each with its stream, in order.
pub open spec fn frames_read(events: Seq<CameraEvent>) -> Seq<(usize, Vec<u8>)>
    decreases events.len(),
{
    if events.len() == 0 {
        Seq::empty()
    } else {
        match (camera_after(events.drop_last()).1, events.last()) {
            (CameraAction::ReadStream(stream), CameraEvent::Read(Ok(data))) => frames_read(
                events.drop_last(),
            ).push((stream, data)),
            _ => frames_read(events.drop_last()),
        }
    }
}

/// The frames that were delivered, each with the stream that it was delivered as, in order.
pub open spec fn frames_delivered(events: Seq<CameraEvent>) -> Seq<(usize, Vec<u8>)>
    decreases events.len(),
{
    if events.len() == 0 {
        Seq::empty()
    } else if let CameraAction::Deliver(stream, data) = camera_after(events).1 {
        frames_delivered(events.drop_last()).push((stream, data))
    } else {
        frames_delivered(events.drop_last())
    }
}

/// Whether a completed request is being read in this state.
pub open spec fn request_in_hand(state: CameraState) -> bool {
    state is Reading || state is Delivering
}

/// How many streams of the request in hand are still to be read.
pub open spec fn streams_left(state: CameraState) -> nat {
    match state {
        CameraState::Reading(stream) => (STREAMS - 1 - stream) as nat,
        CameraState::Delivering(stream) => (STREAMS - 1 - stream) as nat,
        _ => 0,
    }
}

/// Whether the action ends the loop.
pub open spec fn ends_camera(action: CameraAction) -> bool {
    action is Reject || action is ReturnError || action is Abort
}

/// Whether the event is an outcome of the action.
pub open spec fn camera_answers(action: CameraAction, event: CameraEvent) -> bool {
    match action {
        CameraAction::Validate => event is Validated,
        CameraAction::CreateRequests => event is Created || event is Failed,
        CameraAction::Subscribe => event is Done,
        CameraAction::CheckCommand => event is Command || event is Failed,
        CameraAction::AwaitRequest => event is Completed || event is Failed,
        CameraAction::ReadStream(_) => event is Read || event is Failed,
        CameraAction::Reject | CameraAction::ReturnError | CameraAction::Abort => false,
        _ => event is Done || event is Failed,
    }
}

/// The resize that a command asks for, if the event is one.
pub open spec fn resize_commanded(event: CameraEvent) -> Option<CameraResizeRequest> {
    match event {
        CameraEvent::Command(Some(CameraCommand::Resize(request))) => Some(request),
        _ => None,
    }
}

/// Which action leads to the state, and what the state remembers of the events.
spec fn camera_remembers(events: Seq<CameraEvent>) -> bool {
    let (state, action) = camera_after(events);
    let n = events.len() as int;
    match state {
        CameraState::Configuring => action is ConfigureInitially && n == 0,
        CameraState::Validating => action is Validate,
        CameraState::Acquiring => action is Acquire,
        CameraState::Applying { resized } => {
            &&& action is Apply
            &&& resized ==> n >= 3 && resize_commanded(events[n - 3]) is Some
        },
        CameraState::Creating { .. } => action is CreateRequests,
        CameraState::Starting { count, .. } => {
            &&& action is StartCapture
            &&& n >= 1
            &&& events[n - 1] == CameraEvent::Created(count)
        },
        CameraState::Queueing { number, count, .. } => {
            &&& action == CameraAction::QueueRequest(number)
            &&& number < count
        },
        CameraState::Subscribing => action is Subscribe,
        CameraState::Checking => action is CheckCommand,
        CameraState::Stopping { request } => {
            &&& action is StopCapture
            &&& n >= 1
            &&& resize_commanded(events[n - 1]) == Some(request)
        },
        CameraState::Resizing => {
            &&& action matches CameraAction::ConfigureResized(request)
            &&& n >= 2
            &&& events[n - 1] is Done
            &&& resize_commanded(events[n - 2]) == Some(request)
        },
        CameraState::Awaiting => action is AwaitRequest,
        CameraState::Reading(stream) => stream < STREAMS && action == CameraAction::ReadStream(
            stream,
        ),
        CameraState::Delivering(stream) => stream < STREAMS && (
        action matches CameraAction::Deliver(delivered, _) && delivered == stream),
        CameraState::Requeueing => action is Requeue,
        CameraState::Stopped => ends_camera(action),
    }
}

proof fn lemma_camera_remembers(events: Seq<CameraEvent>)
    requires
        camera_admits(events),
    ensures
        camera_remembers(events),
    decreases events.len(),
{
    if events.len() > 0 {
        lemma_camera_remembers(events.drop_last());
    }
}

/// Every outcome of the action that the loop asks for is an event that it then accepts.
pub proof fn law_camera_accepts_answers(events: Seq<CameraEvent>, event: CameraEvent)
    requires
        camera_admits(events),
        camera_answers(camera_after(events).1, event),
    ensures
        camera_admits(events.push(event)),
{
    lemma_camera_remembers(events);
    assert(events.push(event).drop_last() =~= events);
}

/// Every request that was completed is queued again, once, when its streams have
/// been read, unless the loop has ended before.
pub proof fn law_requests_are_requeued(events: Seq<CameraEvent>)
    requires
        camera_admits(events),
    ensures
        !(camera_after(events).0 is Stopped) ==> requests_completed(events) == requests_requeued(
            events,
        ) + if request_in_hand(camera_after(events).0) {
            1nat
        } else {
            0nat
        },
    decreases events.len(),
{
    if events.len() > 0 {
        law_requests_are_requeued(events.drop_last());
        lemma_camera_remembers(events.drop_last());
    }
}

/// Each stream of each completed request is read once, the variable stream and
/// the fixed stream in turn, as long as the loop has not ended.
pub proof fn law_streams_read_in_turn(events: Seq<CameraEvent>)
    requires
        camera_admits(events),
    ensures
        !(camera_after(events).0 is Stopped) ==> streams_read(events).len() + streams_left(
            camera_after(events).0,
        ) == STREAMS * requests_completed(events),
        forall|i: int| 0 <= i < streams_read(events).len() ==> #[trigger] streams_read(events)[i]
            == i % (STREAMS as int),
    decreases events.len(),
{
    if events.len() > 0 {
        law_streams_read_in_turn(events.drop_last());
        lemma_camera_remembers(events.drop_last());
    }
}

/// Every frame that could be read is delivered, unchanged, once, in order and to
/// the encoder of its own stream, and nothing else is delivered.
pub proof fn law_frames_delivered_as_read(events: Seq<CameraEvent>)
    requires
        camera_admits(events),
    ensures
        frames_delivered(events) == frames_read(events),
    decreases events.len(),
{
    if events.len() > 0 {
        law_frames_delivered_as_read(events.drop_last());
        lemma_camera_remembers(events.drop_last());
    }
}

/// A camera that runs has been given all the requests that were created for it
/// last, each once and in order.
pub proof fn law_running_camera_has_its_requests(events: Seq<CameraEvent>)
    requires
        camera_admits(events),
        camera_runs(camera_after(events).0),
    ensures
        numbers_queued(events) == numbers_below(last_created(events)),
{
    lemma_numbers_queued(events);
}

proof fn lemma_numbers_queued(events: Seq<CameraEvent>)
    requires
        camera_admits(events),
    ensures
        camera_runs(camera_after(events).0) ==> numbers_queued(events) == numbers_below(
            last_created(events),
        ),
        camera_after(events).0 is Starting ==> numbers_queued(events) == Seq::<usize>::empty(),
        camera_after(events).0 matches CameraState::Starting { count, .. } ==> last_created(events)
            == count,
        camera_after(events).0 matches CameraState::Queueing { number, count, .. } ==> number
            < count && last_created(events) == count && numbers_queued(events) == numbers_below(
            (number + 1) as nat,
        ),
    decreases events.len(),
{
    if events.len() > 0 {
        let before = events.drop_last();
        lemma_numbers_queued(before);
        lemma_camera_remembers(before);
        if let CameraState::Starting { count, .. } = camera_after(before).0 {
            assert(numbers_below(0) =~= Seq::<usize>::empty());
            assert(numbers_below(1) =~= Seq::<usize>::empty().push(0usize));
        }
        if let CameraState::Queueing { number, count, .. } = camera_after(before).0 {
            assert(numbers_below((number + 2) as nat) =~= numbers_below((number + 1) as nat).push(
                (number + 1) as usize,
            ));
        }
    }
}

/// Capturing is stopped when a resize is found in the command channel, and at no
/// other time. After that the variable stream is configured as that resize says.
pub proof fn law_resize_on_command_only(events: Seq<CameraEvent>, request: CameraResizeRequest)
    requires
        camera_admits(events),
    ensures
        camera_after(events).1 is StopCapture <==> events.len() > 0 && resize_commanded(
            events.last(),
        ) is Some,
        camera_after(events).1 == CameraAction::ConfigureResized(request) <==> events.len() >= 2
            && events.last() is Done && resize_commanded(events[events.len() - 2]) == Some(request),
{
    lemma_camera_remembers(events);
    if events.len() > 0 {
        lemma_camera_remembers(events.drop_last());
        if events.len() >= 2 {
            let earlier = events.drop_last().drop_last();
            assert(camera_admits(events.drop_last()));
            assert(camera_admits(earlier));
            lemma_camera_remembers(earlier);
        }
    }
}

/// A configuration is handed to the camera only when both streams have been
/// configured and validated and the camera is acquired, or when capturing has been
/// stopped and the variable stream configured for a resize.
pub proof fn law_camera_stopped_before_configured(events: Seq<CameraEvent>)
    requires
        camera_admits(events),
        camera_after(events).1 is Apply,
    ensures
        events.len() >= 3,
        events.last() is Done,
        events[events.len() - 2] is Validated || (events[events.len() - 2] is Done
            && resize_commanded(events[events.len() - 3]) is Some),
{
    lemma_camera_remembers(events);
    assert(events.len() > 0);
    lemma_camera_remembers(events.drop_last());
    if events.len() >= 2 {
        assert(camera_admits(events.drop_last()));
        lemma_camera_remembers(events.drop_last().drop_last());
    }
}

/// Capturing is started only with a configuration that was just handed to the
/// camera and with requests that were created for it after that.
pub proof fn law_camera_configured_before_started(events: Seq<CameraEvent>)
    requires
        camera_admits(events),
        camera_after(events).1 is StartCapture,
    ensures
        events.len() >= 2,
        events.last() is Created,
        events[events.len() - 2] is Done,
        camera_after(events.drop_last().drop_last()).1 is Apply,
{
    lemma_camera_remembers(events);
    assert(events.len() > 0);
    let before = events.drop_last();
    assert(camera_admits(before));
    lemma_camera_remembers(before);
    assert(before.len() > 0);
    assert(camera_admits(before.drop_last()));
    lemma_camera_remembers(before.drop_last());
}

/// An invalid configuration is refused, and any other is not. The loop ends on
/// that or on a failure, and accepts nothing more then.
pub proof fn law_only_invalid_rejected(events: Seq<CameraEvent>)
    requires
        camera_admits(events),
    ensures
        camera_after(events).1 is Reject <==> events.len() > 0 && events.last()
            == CameraEvent::Validated(ConfigurationStatus::Invalid),
        ends_camera(camera_after(events).1) <==> camera_after(events).1 is Reject || (events.len()
            > 0 && events.last() is Failed),
        ends_camera(camera_after(events).1) ==> forall|event: CameraEvent|
            !#[trigger] camera_admits(events.push(event)),
{
    lemma_camera_remembers(events);
    assert forall|event: CameraEvent| ends_camera(camera_after(events).1) implies !#[trigger]
    camera_admits(events.push(event)) by {
        assert(events.push(event).drop_last() =~= events);
    }
}

/// A failure ends the loop with its error, unless it is a stream that could not be
/// configured, a request that did not come or a buffer that could not be looked at:
/// those are not survived.
pub proof fn law_camera_failures(events: Seq<CameraEvent>)
    requires
        camera_admits(events),
        events.len() > 0,
        events.last() is Failed,
    ensures
        ({
            let failed = camera_after(events.drop_last()).1;
            let fatal = failed is ConfigureInitially || failed is ConfigureResized
                || failed is AwaitRequest || failed is ReadStream;
            &&& camera_after(events).1 is Abort <==> fatal
            &&& camera_after(events).1 is ReturnError <==> !fatal
        }),
{
    lemma_camera_remembers(events.drop_last());
}

/// The loop takes each kind of event as the outcome of the one action that it tells
/// about. Anything else can be carried out or fail, but for the validation, which
/// tells how it went, and the subscription, which cannot fail.
pub proof fn law_camera_accepts_only_answers(events: Seq<CameraEvent>, event: CameraEvent)
    requires
        camera_admits(events),
    ensures
        ({
            let asked = camera_after(events).1;
            let accepted = camera_admits(events.push(event));
            let ended = asked is Reject || asked is ReturnError || asked is Abort;
            &&& event is Validated ==> (accepted <==> asked is Validate)
            &&& event is Created ==> (accepted <==> asked is CreateRequests)
            &&& event is Command ==> (accepted <==> asked is CheckCommand)
            &&& event is Completed ==> (accepted <==> asked is AwaitRequest)
            &&& event is Read ==> (accepted <==> asked is ReadStream)
            &&& event is Failed ==> (accepted <==> !ended && !(asked is Validate) && !(
            asked is Subscribe))
            &&& event is Done ==> (accepted <==> !ended && !(asked is Validate) && !(
            asked is CreateRequests) && !(asked is CheckCommand) && !(asked is AwaitRequest) && !(
            asked is ReadStream))
        }),
{
    lemma_camera_remembers(events);
    assert(events.push(event).drop_last() =~= events);
}

/// The camera is set up in order, and nothing of it is done at another time. First
/// both streams are configured, then the configuration is validated, and the camera
/// is acquired unless the configuration is invalid. It is given its configuration
/// when it is acquired and after each resize. Requests are created after that, and
/// as soon as they are there, however many, capturing is started.
pub proof fn law_camera_set_up_in_order(events: Seq<CameraEvent>)
    requires
        camera_admits(events),
    ensures
        ({
            let next = camera_after(events).1;
            let n = events.len();
            let did = camera_after(events.drop_last()).1;
            &&& next is ConfigureInitially <==> n == 0
            &&& next is Validate <==> n == 1 && events.last() is Done
            &&& next is Acquire <==> n > 0 && (events.last() == CameraEvent::Validated(
                ConfigurationStatus::Valid,
            ) || events.last() == CameraEvent::Validated(ConfigurationStatus::Adjusted))
            &&& next is Apply <==> n > 0 && events.last() is Done && (did is Acquire
                || did is ConfigureResized)
            &&& next is CreateRequests <==> n > 0 && events.last() is Done && did is Apply
            &&& next is StartCapture <==> n > 0 && events.last() is Created
        }),
{
    lemma_camera_remembers(events);
    if events.len() > 0 {
        lemma_camera_remembers(events.drop_last());
    }
}

/// How many times requests were created.
pub open spec fn times_created(events: Seq<CameraEvent>) -> nat
    decreases events.len(),
{
    if events.len() == 0 {
        0
    } else {
        times_created(events.drop_last()) + if events.last() is Created {
            1nat
        } else {
            0nat
        }
    }
}

/// Whether `action` leaves none of `created` requests to be queued, when they are
/// queued in order after capturing was started.
pub open spec fn queues_last(action: CameraAction, created: nat) -> bool {
    match action {
        CameraAction::StartCapture => created == 0,
        CameraAction::QueueRequest(number) => number + 1 == created,
        _ => false,
    }
}

/// Requests were created once until the first resize, and again for each resize.
proof fn lemma_times_created(events: Seq<CameraEvent>)
    requires
        camera_admits(events),
    ensures
        match camera_after(events).0 {
            CameraState::Configuring | CameraState::Validating | CameraState::Acquiring => {
                times_created(events) == 0
            },
            CameraState::Applying { resized } | CameraState::Creating { resized } => resized
                <==> times_created(events) > 0,
            CameraState::Starting { resized, .. } | CameraState::Queueing { resized, .. } => {
                &&& times_created(events) > 0
                &&& resized <==> times_created(events) > 1
            },
            CameraState::Stopped => true,
            _ => times_created(events) > 0,
        },
    decreases events.len(),
{
    if events.len() > 0 {
        lemma_times_created(events.drop_last());
        lemma_camera_remembers(events.drop_last());
    }
}

/// The requests that were created last are queued in the order of their numbers once
/// capturing is started, each after the one before it, and none but those. After the
/// last of them the camera is made to report its requests if it was started for the
/// first time.
pub proof fn law_requests_queued_in_order(events: Seq<CameraEvent>, number: usize)
    requires
        camera_admits(events),
    ensures
        ({
            let next = camera_after(events).1;
            let did = camera_after(events.drop_last()).1;
            let done = events.len() > 0 && events.last() is Done;
            &&& next == CameraAction::QueueRequest(number) <==> done && number < last_created(
                events,
            ) && if number == 0 {
                did is StartCapture
            } else {
                did == CameraAction::QueueRequest((number - 1) as usize)
            }
            &&& next is Subscribe <==> done && queues_last(did, last_created(events))
                && times_created(events) == 1
        }),
{
    lemma_camera_remembers(events);
    if events.len() > 0 {
        lemma_camera_remembers(events.drop_last());
        lemma_numbers_queued(events.drop_last());
        lemma_times_created(events.drop_last());
    }
}

/// Any number of actions that were carried out.
pub open spec fn all_done(times: nat) -> Seq<CameraEvent> {
    Seq::new(times, |i: int| CameraEvent::Done)
}

proof fn lemma_queueing(events: Seq<CameraEvent>, resized: bool, count: usize, queued: nat)
    requires
        camera_admits(events),
        camera_after(events).0 == (CameraState::Starting { resized, count }),
        queued <= count,
    ensures
        camera_admits(events + all_done(queued + 1)),
        camera_after(events + all_done(queued + 1)) == after_queued(resized, queued as int, count),
    decreases queued,
{
    let later = events + all_done(queued + 1);
    assert(later.drop_last() =~= events + all_done(queued));
    assert(later.last() is Done);
    if queued == 0 {
        assert(events + all_done(0) =~= events);
    } else {
        lemma_queueing(events, resized, count, (queued - 1) as nat);
    }
}

/// Once requests are created, however many, capturing is started. If nothing fails,
/// then as many requests are queued as were created, one after the other from number
/// 0, and the camera runs after that: it is made to report its requests if it was
/// started for the first time, and a request is awaited if it was started anew.
pub proof fn law_created_camera_runs(events: Seq<CameraEvent>, count: usize, queued: nat)
    requires
        camera_admits(events),
        events.len() > 0,
        events.last() == CameraEvent::Created(count),
        queued <= count,
    ensures
        camera_after(events).1 is StartCapture,
        camera_admits(events + all_done(queued + 1)),
        queued < count ==> camera_after(events + all_done(queued + 1)).1
            == CameraAction::QueueRequest(queued as usize),
        queued == count && times_created(events) == 1 ==> camera_after(
            events + all_done(queued + 1),
        ).1 is Subscribe,
        queued == count && times_created(events) != 1 ==> camera_after(
            events + all_done(queued + 1),
        ).1 is AwaitRequest,
{
    lemma_camera_remembers(events);
    lemma_camera_remembers(events.drop_last());
    lemma_times_created(events);
    if let CameraState::Starting { resized, count: created } = camera_after(events).0 {
        lemma_queueing(events, resized, count, queued);
    }
}

/// The command channel is looked at once the camera reports its requests, and again
/// each time a request was queued again. A request is awaited when no resize was
/// found there, and when a camera that was started anew has all its requests.
pub proof fn law_camera_serves_on(events: Seq<CameraEvent>)
    requires
        camera_admits(events),
    ensures
        ({
            let next = camera_after(events).1;
            let did = camera_after(events.drop_last()).1;
            let done = events.len() > 0 && events.last() is Done;
            &&& next is CheckCommand <==> done && (did is Subscribe || did is Requeue)
            &&& next is AwaitRequest <==> (events.len() > 0 && events.last() is Command
                && resize_commanded(events.last()) is None) || (done && queues_last(
                did,
                last_created(events),
            ) && times_created(events) > 1)
        }),
{
    lemma_camera_remembers(events);
    if events.len() > 0 {
        lemma_camera_remembers(events.drop_last());
        lemma_numbers_queued(events.drop_last());
        lemma_times_created(events.drop_last());
    }
}

/// Whether `event` tells that the loop is done with a stream of the request in hand:
/// its frame could not be read, or was delivered.
pub open spec fn ends_stream(action: CameraAction, event: CameraEvent, stream: usize) -> bool {
    match (action, event) {
        (CameraAction::ReadStream(read), CameraEvent::Read(Err(_))) => read == stream,
        (CameraAction::Deliver(delivered, _), CameraEvent::Done) => delivered == stream,
        _ => false,
    }
}

/// When a request is completed, its variable stream is read, and its fixed stream
/// when that is done with. When both are done with, the request is queued again. A
/// frame is delivered as soon as it is read, as it is, to the encoder of the stream
/// that it was read from. None of this is done at another time.
pub proof fn law_completed_request_handled(events: Seq<CameraEvent>, stream: usize, data: Vec<u8>)
    requires
        camera_admits(events),
    ensures
        ({
            let next = camera_after(events).1;
            let did = camera_after(events.drop_last()).1;
            let n = events.len();
            &&& next == CameraAction::ReadStream(0) <==> n > 0 && events.last() is Completed
            &&& next == CameraAction::ReadStream(1) <==> n > 0 && ends_stream(did, events.last(), 0)
            &&& next == CameraAction::ReadStream(stream) ==> stream == 0 || stream == 1
            &&& next is Requeue <==> n > 0 && ends_stream(did, events.last(), 1)
            &&& next == CameraAction::Deliver(stream, data) <==> n > 0 && did
                == CameraAction::ReadStream(stream) && events.last() == CameraEvent::Read(
                Ok::<Vec<u8>, ReadError>(data),
            )
        }),
{
    lemma_camera_remembers(events);
    if events.len() > 0 {
        lemma_camera_remembers(events.drop_last());
    }
}

} // verus!
