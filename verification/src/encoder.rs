//! The encoder of the variable stream.
//!
//! `encoder_step` is the loop that feeds the encoder. It takes what came of the
//! last action and says what to do next: a raw frame is taken off the camera's
//! channel for each buffer, and one command decides what becomes of it.

use crate::command::{CameraResizeRequest, EncoderCommand, H264Level, H264Profile};
use crate::format::{ENCODED_PF, HEIGHT, PF, Size, WIDTH};
use std::sync::Arc;
use vstd::prelude::*;
use vstd::slice::slice_to_vec;

verus! {

/// How many buffers each queue of an encoder has.
pub const NUM_BUFFERS: usize = 10;

/// The format of one queue of an encoder.
#[derive(Debug, Clone, Copy)]
pub struct QueueFormat {
    pub pixel_format: [u8; 4],
    pub width: usize,
    pub height: usize,
}

/// What an encoder is set up with.
#[derive(Debug, Clone, Copy)]
pub struct EncoderSetup {
    /// The queue that encoded images come out of.
    pub capture: QueueFormat,
    /// The queue that raw images are put into.
    pub output: QueueFormat,
    /// How many buffers each queue gets.
    pub buffers: usize,
}

/// The setup of an encoder for images of a size: raw images in, encoded images
/// of the same size out.
pub fn encoder_setup(size: Size) -> (setup: EncoderSetup)
    ensures
        setup.capture.pixel_format@ == seq![0x48u8, 0x32, 0x36, 0x34],
        setup.output.pixel_format@ == seq![0x4eu8, 0x56, 0x31, 0x32],
        setup.capture.width == size.width,
        setup.capture.height == size.height,
        setup.output.width == size.width,
        setup.output.height == size.height,
        setup.buffers == 10,
{
    let width: usize = size.width as usize;
    let height: usize = size.height as usize;
    EncoderSetup {
        capture: QueueFormat { pixel_format: ENCODED_PF, width, height },
        output: QueueFormat { pixel_format: PF, width, height },
        buffers: NUM_BUFFERS,
    }
}

/// The memory layout of one plane of the encoder's raw images.
#[derive(Debug, Clone, Copy, PartialEq, Eq, Structural)]
pub struct PlaneFormat {
    pub bytesperline: u32,
    pub sizeimage: u32,
}

/// What a look at the command channel gave.
#[derive(Debug, Clone, Copy, PartialEq, Eq, Structural)]
pub enum CommandPoll {
    /// No command is waiting.
    Empty,
    /// No command will come any more.
    Disconnected,
    /// The command that waited longest.
    Command(EncoderCommand),
}

/// What came of an action.
#[derive(Debug)]
pub enum EncoderEvent {
    /// A new encoder is there; its raw images have these planes.
    Created(Vec<PlaneFormat>),
    /// The encoder gave a buffer of this many bytes.
    Buffer(usize),
    /// The camera gave a frame.
    Frame(Arc<Vec<u8>>),
    /// The command channel was looked at.
    Polled(CommandPoll),
    /// Any other action was carried out.
    Done,
    /// The action failed.
    Failed,
}

/// What to do next.
#[derive(Debug)]
pub enum EncoderAction {
    /// Drop the encoder, if there is one, and create one for this size.
    Create(Size),
    /// Start the encoder, which was created or stopped.
    Start,
    /// Stop the encoder.
    Stop,
    /// Take an empty buffer from the encoder, giving back the one that is held.
    TakeBuffer,
    /// Wait for a frame of the camera.
    ReceiveFrame,
    /// Look at the command channel, without waiting.
    PollCommand,
    /// Copy the frame into the buffer and queue it to the encoder.
    QueueFrame(Arc<Vec<u8>>),
    /// Send the camera this resize.
    NotifyCamera(CameraResizeRequest),
    SetBitrate(i32),
    SetLevel(H264Level),
    SetProfile(H264Profile),
    /// End the loop.
    Finish,
    /// End the loop with the error of the action that failed.
    ReturnError,
    /// Panic: the server is not meant to go on from here.
    Abort,
}

/// Where the loop stands.
#[derive(Debug)]
pub enum EncoderState {
    /// An encoder is being created, for a resize or at the start of the loop.
    Creating { resize: Option<Size> },
    /// The encoder is being started; the camera is to be told of a resize after that.
    Starting { notice: Option<CameraResizeRequest> },
    /// A buffer is being taken.
    TakingBuffer,
    /// A frame is awaited that fills a buffer of this many bytes.
    AwaitingFrame { capacity: usize },
    /// The frame fits, and the command channel is being looked at.
    Polling { frame: Arc<Vec<u8>> },
    /// A frame is being queued, or a control is being set.
    Acting,
    /// The encoder is being stopped, to be started again.
    Restarting,
    /// The encoder is being stopped, to be replaced by one for this size.
    Resizing { size: Size },
    /// The camera is being told of a resize.
    Notifying,
    /// The loop has ended.
    Finished,
}

impl EncoderState {
    /// Whether the event can come of the action that led to this state.
    pub open spec fn accepts(self, event: EncoderEvent) -> bool {
        match self {
            EncoderState::Creating { .. } => event is Created || event is Failed,
            EncoderState::TakingBuffer => event is Buffer || event is Failed,
            EncoderState::AwaitingFrame { .. } => event is Frame || event is Failed,
            EncoderState::Polling { .. } => event is Polled,
            EncoderState::Finished => false,
            _ => event is Done || event is Failed,
        }
    }

    /// Tells whether the event can come of the action that led to this state.
    pub fn can_accept(&self, event: &EncoderEvent) -> (result: bool)
        ensures
            result == self.accepts(*event),
    {
        match (self, event) {
            (EncoderState::Finished, _) => false,
            (EncoderState::Polling { .. }, EncoderEvent::Polled(_)) => true,
            (EncoderState::Polling { .. }, _) => false,
            (_, EncoderEvent::Failed) => true,
            (EncoderState::Creating { .. }, EncoderEvent::Created(_)) => true,
            (EncoderState::Creating { .. }, _) => false,
            (EncoderState::TakingBuffer, EncoderEvent::Buffer(_)) => true,
            (EncoderState::TakingBuffer, _) => false,
            (EncoderState::AwaitingFrame { .. }, EncoderEvent::Frame(_)) => true,
            (EncoderState::AwaitingFrame { .. }, _) => false,
            (_, EncoderEvent::Done) => true,
            _ => false,
        }
    }
}

/// What to do about a command, with the frame that was taken for it.
pub open spec fn command_response(frame: Arc<Vec<u8>>, command: EncoderCommand) -> (
    EncoderState,
    EncoderAction,
) {
    match command {
        EncoderCommand::NextFrame => (EncoderState::Acting, EncoderAction::QueueFrame(frame)),
        EncoderCommand::RestartEncoder => (EncoderState::Restarting, EncoderAction::Stop),
        EncoderCommand::Resize(size) => (EncoderState::Resizing { size }, EncoderAction::Stop),
        EncoderCommand::SetBitrate(bitrate) => (
            EncoderState::Acting,
            EncoderAction::SetBitrate(bitrate),
        ),
        EncoderCommand::SetLevel(level) => (EncoderState::Acting, EncoderAction::SetLevel(level)),
        EncoderCommand::SetProfile(profile) => (
            EncoderState::Acting,
            EncoderAction::SetProfile(profile),
        ),
    }
}

/// What to do about a failure. An encoder that is replaced need not stop; the
/// first encoder, a frame that cannot be queued and a control that cannot be set
/// end the loop with an error; anything else is not meant to be survived.
pub open spec fn failure_response(state: EncoderState) -> (EncoderState, EncoderAction) {
    match state {
        EncoderState::Resizing { size } => (
            EncoderState::Creating { resize: Some(size) },
            EncoderAction::Create(size),
        ),
        EncoderState::Creating { resize: None } | EncoderState::Acting => (
            EncoderState::Finished,
            EncoderAction::ReturnError,
        ),
        _ => (EncoderState::Finished, EncoderAction::Abort),
    }
}

/// The resize that the camera is told of when an encoder for `size` has the given planes.
pub open spec fn resize_notice(size: Size, planes: Seq<PlaneFormat>) -> CameraResizeRequest {
    CameraResizeRequest {
        width: size.width,
        height: size.height,
        stride: planes[0].bytesperline,
        size: planes[0].sizeimage,
    }
}

/// What to do with a new encoder: it is started, and a resize is announced after
/// that with the layout of its first plane. A resize needs that plane.
pub open spec fn creation_response(resize: Option<Size>, planes: Seq<PlaneFormat>) -> (
    EncoderState,
    EncoderAction,
) {
    match resize {
        None => (EncoderState::Starting { notice: None }, EncoderAction::Start),
        Some(size) => if planes.len() == 0 {
            (EncoderState::Finished, EncoderAction::Abort)
        } else {
            (
                EncoderState::Starting { notice: Some(resize_notice(size, planes)) },
                EncoderAction::Start,
            )
        },
    }
}

/// The state after an event, and the action that leads there.
pub open spec fn encoder_next(state: EncoderState, event: EncoderEvent) -> (
    EncoderState,
    EncoderAction,
) {
    match (state, event) {
        (state, EncoderEvent::Failed) => failure_response(state),
        (EncoderState::Creating { resize }, EncoderEvent::Created(planes)) => creation_response(
            resize,
            planes@,
        ),
        (EncoderState::Starting { notice: Some(request) }, EncoderEvent::Done) => (
            EncoderState::Notifying,
            EncoderAction::NotifyCamera(request),
        ),
        (EncoderState::TakingBuffer, EncoderEvent::Buffer(capacity)) => (
            EncoderState::AwaitingFrame { capacity },
            EncoderAction::ReceiveFrame,
        ),
        (EncoderState::AwaitingFrame { capacity }, EncoderEvent::Frame(frame)) => if frame@.len()
            == capacity {
            (EncoderState::Polling { frame }, EncoderAction::PollCommand)
        } else {
            (EncoderState::AwaitingFrame { capacity }, EncoderAction::ReceiveFrame)
        },
        (EncoderState::Polling { frame }, EncoderEvent::Polled(CommandPoll::Command(command))) => {
            command_response(frame, command)
        },
        (EncoderState::Polling { .. }, EncoderEvent::Polled(CommandPoll::Disconnected)) => (
            EncoderState::Finished,
            EncoderAction::Finish,
        ),
        (EncoderState::Restarting, EncoderEvent::Done) => (
            EncoderState::Starting { notice: None },
            EncoderAction::Start,
        ),
        (EncoderState::Resizing { size }, EncoderEvent::Done) => (
            EncoderState::Creating { resize: Some(size) },
            EncoderAction::Create(size),
        ),
        // A frame is discarded when no command waits for it. After that, and after
        // an action was carried out, the next buffer is taken.
        _ => (EncoderState::TakingBuffer, EncoderAction::TakeBuffer),
    }
}

/// The state and the action at the beginning of the loop.
pub open spec fn encoder_first() -> (EncoderState, EncoderAction) {
    (
        EncoderState::Creating { resize: None },
        EncoderAction::Create(Size { width: 1920, height: 1080 }),
    )
}

/// Begins the loop: an encoder for the full image size is created first.
pub fn encoder_start() -> (first: (EncoderState, EncoderAction))
    ensures
        first == encoder_first(),
{
    (
        EncoderState::Creating { resize: None },
        EncoderAction::Create(Size { width: WIDTH, height: HEIGHT }),
    )
}

/// Takes what came of the last action, and says what to do next.
pub fn encoder_step(state: EncoderState, event: EncoderEvent) -> (next: (
    EncoderState,
    EncoderAction,
))
    requires
        state.accepts(event),
    ensures
        next == encoder_next(state, event),
{
    match (state, event) {
        (state, EncoderEvent::Failed) => respond_to_failure(state),
        (EncoderState::Creating { resize }, EncoderEvent::Created(planes)) => {
            respond_to_creation(resize, &planes)
        },
        (EncoderState::Starting { notice: Some(request) }, EncoderEvent::Done) => (
            EncoderState::Notifying,
            EncoderAction::NotifyCamera(request),
        ),
        (EncoderState::TakingBuffer, EncoderEvent::Buffer(capacity)) => (
            EncoderState::AwaitingFrame { capacity },
            EncoderAction::ReceiveFrame,
        ),
        (EncoderState::AwaitingFrame { capacity }, EncoderEvent::Frame(frame)) => {
            if frame.len() == capacity {
                (EncoderState::Polling { frame }, EncoderAction::PollCommand)
            } else {
                (EncoderState::AwaitingFrame { capacity }, EncoderAction::ReceiveFrame)
            }
        },
        (EncoderState::Polling { frame }, EncoderEvent::Polled(poll)) => match poll {
            CommandPoll::Empty => (EncoderState::TakingBuffer, EncoderAction::TakeBuffer),
            CommandPoll::Disconnected => (EncoderState::Finished, EncoderAction::Finish),
            CommandPoll::Command(command) => respond_to_command(frame, command),
        },
        (EncoderState::Restarting, EncoderEvent::Done) => (
            EncoderState::Starting { notice: None },
            EncoderAction::Start,
        ),
        (EncoderState::Resizing { size }, EncoderEvent::Done) => (
            EncoderState::Creating { resize: Some(size) },
            EncoderAction::Create(size),
        ),
        _ => (EncoderState::TakingBuffer, EncoderAction::TakeBuffer),
    }
}

fn respond_to_failure(state: EncoderState) -> (next: (EncoderState, EncoderAction))
    ensures
        next == failure_response(state),
{
    match state {
        EncoderState::Resizing { size } => (
            EncoderState::Creating { resize: Some(size) },
            EncoderAction::Create(size),
        ),
        EncoderState::Creating { resize: None } => (
            EncoderState::Finished,
            EncoderAction::ReturnError,
        ),
        EncoderState::Acting => (EncoderState::Finished, EncoderAction::ReturnError),
        _ => (EncoderState::Finished, EncoderAction::Abort),
    }
}

fn respond_to_creation(resize: Option<Size>, planes: &Vec<PlaneFormat>) -> (next: (
    EncoderState,
    EncoderAction,
))
    ensures
        next == creation_response(resize, planes@),
{
    let size = match resize {
        Some(size) => size,
        None => return (EncoderState::Starting { notice: None }, EncoderAction::Start),
    };
    if planes.len() == 0 {
        return (EncoderState::Finished, EncoderAction::Abort);
    }
    let notice = CameraResizeRequest {
        width: size.width,
        height: size.height,
        stride: planes[0].bytesperline,
        size: planes[0].sizeimage,
    };
    (EncoderState::Starting { notice: Some(notice) }, EncoderAction::Start)
}

fn respond_to_command(frame: Arc<Vec<u8>>, command: EncoderCommand) -> (next: (
    EncoderState,
    EncoderAction,
))
    ensures
        next == command_response(frame, command),
{
    match command {
        EncoderCommand::NextFrame => (EncoderState::Acting, EncoderAction::QueueFrame(frame)),
        EncoderCommand::RestartEncoder => (EncoderState::Restarting, EncoderAction::Stop),
        EncoderCommand::Resize(size) => (EncoderState::Resizing { size }, EncoderAction::Stop),
        EncoderCommand::SetBitrate(bitrate) => (
            EncoderState::Acting,
            EncoderAction::SetBitrate(bitrate),
        ),
        EncoderCommand::SetLevel(level) => (EncoderState::Acting, EncoderAction::SetLevel(level)),
        EncoderCommand::SetProfile(profile) => (
            EncoderState::Acting,
            EncoderAction::SetProfile(profile),
        ),
    }
}

/// Copies a frame into the mapped memory of a buffer of the same size, and
/// returns how many bytes of the buffer are then in use.
pub fn fill_buffer(mapping: &mut [u8], frame: &Vec<u8>) -> (bytes_used: usize)
    requires
        old(mapping)@.len() == frame@.len(),
    ensures
        final(mapping)@ == frame@,
        bytes_used == frame@.len(),
{
    let length: usize = frame.len();
    let mut i: usize = 0;
    while i < length
        invariant
            length == frame@.len(),
            mapping@.len() == length,
            i <= length,
            forall|j: int| 0 <= j < i ==> mapping@[j] == frame@[j],
        decreases length - i,
    {
        mapping[i] = frame[i];
        i += 1;
    }
    assert(mapping@ =~= frame@);
    length
}

/// What the encoder's callback hands to the clients: nothing when the encoder
/// used none of the buffer, else a copy of the mapped memory.
pub fn encoded_output(bytes_used: u32, mapping: &[u8]) -> (output: Option<Vec<u8>>)
    ensures
        bytes_used == 0 ==> output is None,
        bytes_used != 0 ==> (output matches Some(data) && data@ == mapping@),
{
    if bytes_used == 0 {
        return None;
    }
    Some(slice_to_vec(mapping))
}

/// Whether the events can follow each other, from the beginning of the loop.
pub open spec fn encoder_admits(events: Seq<EncoderEvent>) -> bool
    decreases events.len(),
{
    events.len() == 0 || (encoder_admits(events.drop_last()) && encoder_after(
        events.drop_last(),
    ).0.accepts(events.last()))
}

/// The state and the action after the events, from the beginning of the loop.
pub open spec fn encoder_after(events: Seq<EncoderEvent>) -> (EncoderState, EncoderAction)
    decreases events.len(),
{
    if events.len() == 0 {
        encoder_first()
    } else {
        encoder_next(encoder_after(events.drop_last()).0, events.last())
    }
}

/// The size of the buffer that was taken last.
pub open spec fn last_capacity(events: Seq<EncoderEvent>) -> Option<usize>
    decreases events.len(),
{
    if events.len() == 0 {
        None
    } else if let EncoderEvent::Buffer(capacity) = events.last() {
        Some(capacity)
    } else {
        last_capacity(events.drop_last())
    }
}

/// The commands that were taken from the channel, in order.
pub open spec fn commands_taken(events: Seq<EncoderEvent>) -> Seq<EncoderCommand>
    decreases events.len(),
{
    if events.len() == 0 {
        Seq::empty()
    } else if let EncoderEvent::Polled(CommandPoll::Command(command)) = events.last() {
        commands_taken(events.drop_last()).push(command)
    } else {
        commands_taken(events.drop_last())
    }
}

/// The frames that the camera gave, in order.
pub open spec fn frames_received(events: Seq<EncoderEvent>) -> Seq<Arc<Vec<u8>>>
    decreases events.len(),
{
    if events.len() == 0 {
        Seq::empty()
    } else if let EncoderEvent::Frame(frame) = events.last() {
        frames_received(events.drop_last()).push(frame)
    } else {
        frames_received(events.drop_last())
    }
}

/// How many frames of the camera filled the buffer that was taken last.
pub open spec fn frames_fitting(events: Seq<EncoderEvent>) -> nat
    decreases events.len(),
{
    if events.len() == 0 {
        0
    } else {
        frames_fitting(events.drop_last()) + match (events.last(), last_capacity(events)) {
            (EncoderEvent::Frame(frame), Some(capacity)) => if frame@.len() == capacity {
                1nat
            } else {
                0nat
            },
            _ => 0nat,
        }
    }
}

/// The frames that were queued to the encoder, in order.
pub open spec fn frames_queued(events: Seq<EncoderEvent>) -> Seq<Arc<Vec<u8>>>
    decreases events.len(),
{
    if events.len() == 0 {
        Seq::empty()
    } else if let EncoderAction::QueueFrame(frame) = encoder_after(events).1 {
        frames_queued(events.drop_last()).push(frame)
    } else {
        frames_queued(events.drop_last())
    }
}

/// For each frame that was queued, its place among the frames that the camera
/// gave: it was the last of them when it was queued.
pub open spec fn places_queued(events: Seq<EncoderEvent>) -> Seq<int>
    decreases events.len(),
{
    if events.len() == 0 {
        Seq::empty()
    } else if encoder_after(events).1 is QueueFrame {
        places_queued(events.drop_last()).push(frames_received(events).len() - 1)
    } else {
        places_queued(events.drop_last())
    }
}

/// The sizes that the commands taken ask to resize to, in order.
pub open spec fn resizes_taken(events: Seq<EncoderEvent>) -> Seq<Size>
    decreases events.len(),
{
    if events.len() == 0 {
        Seq::empty()
    } else if let Some(size) = resize_asked(events.last()) {
        resizes_taken(events.drop_last()).push(size)
    } else {
        resizes_taken(events.drop_last())
    }
}

/// The sizes that the camera was told to resize to, in order.
pub open spec fn resizes_announced(events: Seq<EncoderEvent>) -> Seq<Size>
    decreases events.len(),
{
    if events.len() == 0 {
        Seq::empty()
    } else if let EncoderAction::NotifyCamera(request) = encoder_after(events).1 {
        resizes_announced(events.drop_last()).push(
            Size { width: request.width, height: request.height },
        )
    } else {
        resizes_announced(events.drop_last())
    }
}

/// The size of a resize that was taken and not announced yet.
pub open spec fn resize_in_work(state: EncoderState) -> Option<Size> {
    match state {
        EncoderState::Resizing { size } => Some(size),
        EncoderState::Creating { resize } => resize,
        EncoderState::Starting { notice: Some(request) } => Some(
            Size { width: request.width, height: request.height },
        ),
        _ => None,
    }
}

/// The size that a command to resize asks for, if the event is one.
pub open spec fn resize_asked(event: EncoderEvent) -> Option<Size> {
    match event {
        EncoderEvent::Polled(CommandPoll::Command(EncoderCommand::Resize(size))) => Some(size),
        _ => None,
    }
}

/// Whether the action ends the loop.
pub open spec fn ends_encoder(action: EncoderAction) -> bool {
    action is Finish || action is ReturnError || action is Abort
}

/// Whether the event is an outcome of the action.
pub open spec fn encoder_answers(action: EncoderAction, event: EncoderEvent) -> bool {
    match action {
        EncoderAction::Create(_) => event is Created || event is Failed,
        EncoderAction::TakeBuffer => event is Buffer || event is Failed,
        EncoderAction::ReceiveFrame => event is Frame || event is Failed,
        EncoderAction::PollCommand => event is Polled,
        EncoderAction::Finish | EncoderAction::ReturnError | EncoderAction::Abort => false,
        _ => event is Done || event is Failed,
    }
}

/// What the state remembers of the events, and which action leads to it.
spec fn encoder_remembers(events: Seq<EncoderEvent>) -> bool {
    let (state, action) = encoder_after(events);
    let n = events.len() as int;
    match state {
        EncoderState::Creating { resize } => {
            &&& action is Create
            &&& resize matches Some(size) ==> n >= 2 && resize_asked(events[n - 2]) == Some(size)
            &&& resize is None ==> n == 0
        },
        EncoderState::Starting { notice } => {
            &&& action is Start
            &&& notice is None ==> n == 1 || (n > 1 && events[n - 1] is Done)
            &&& notice matches Some(request) ==> {
                &&& n >= 3
                &&& events[n - 1] matches EncoderEvent::Created(planes)
                &&& planes@.len() > 0
                &&& resize_asked(events[n - 3]) matches Some(size)
                &&& request == resize_notice(size, planes@)
            }
        },
        EncoderState::TakingBuffer => action is TakeBuffer,
        EncoderState::AwaitingFrame { capacity } => {
            &&& action is ReceiveFrame
            &&& last_capacity(events) == Some(capacity)
        },
        EncoderState::Polling { frame } => {
            &&& action is PollCommand
            &&& n >= 1
            &&& events[n - 1] == EncoderEvent::Frame(frame)
            &&& last_capacity(events) matches Some(capacity)
            &&& capacity == frame@.len()
        },
        EncoderState::Acting => action is QueueFrame || action is SetBitrate || action is SetLevel
            || action is SetProfile,
        EncoderState::Restarting => {
            &&& action is Stop
            &&& n >= 1
            &&& resize_asked(events[n - 1]) is None
        },
        EncoderState::Resizing { size } => {
            &&& action is Stop
            &&& n >= 1
            &&& resize_asked(events[n - 1]) == Some(size)
        },
        EncoderState::Notifying => action is NotifyCamera,
        EncoderState::Finished => ends_encoder(action),
    }
}

proof fn lemma_encoder_remembers(events: Seq<EncoderEvent>)
    requires
        encoder_admits(events),
    ensures
        encoder_remembers(events),
    decreases events.len(),
{
    if events.len() > 0 {
        lemma_encoder_remembers(events.drop_last());
    }
}

/// Every outcome of the action that the loop asks for is an event that it then accepts.
pub proof fn law_encoder_accepts_answers(events: Seq<EncoderEvent>, event: EncoderEvent)
    requires
        encoder_admits(events),
        encoder_answers(encoder_after(events).1, event),
    ensures
        encoder_admits(events.push(event)),
{
    lemma_encoder_remembers(events);
    assert(events.push(event).drop_last() =~= events);
}

/// A frame is queued when a command asks for one. It is the frame that the camera
/// gave last, and it fills exactly the buffer that was taken last.
pub proof fn law_queued_frame_fits(events: Seq<EncoderEvent>, frame: Arc<Vec<u8>>)
    requires
        encoder_admits(events),
        encoder_after(events).1 == EncoderAction::QueueFrame(frame),
    ensures
        events.len() >= 2,
        events[events.len() - 1] == EncoderEvent::Polled(
            CommandPoll::Command(EncoderCommand::NextFrame),
        ),
        events[events.len() - 2] == EncoderEvent::Frame(frame),
        last_capacity(events) matches Some(capacity) && capacity == frame@.len(),
{
    lemma_encoder_remembers(events.drop_last());
}

/// The places of the queued frames rise, and are those of frames that the camera
/// gave; a frame that is still undecided has not been queued.
proof fn lemma_places_queued(events: Seq<EncoderEvent>)
    requires
        encoder_admits(events),
    ensures
        places_queued(events).len() == frames_queued(events).len(),
        forall|i: int|
            0 <= i < places_queued(events).len() ==> 0 <= #[trigger] places_queued(events)[i]
                < frames_received(events).len() - if encoder_after(events).0 is Polling {
                1int
            } else {
                0int
            },
        forall|i: int|
            0 <= i < places_queued(events).len() ==> #[trigger] frames_queued(events)[i]
                == frames_received(events)[places_queued(events)[i]],
        forall|i: int, j: int|
            0 <= i < j < places_queued(events).len() ==> places_queued(events)[i]
                < places_queued(events)[j],
    decreases events.len(),
{
    if events.len() > 0 {
        let before = events.drop_last();
        lemma_places_queued(before);
        lemma_encoder_remembers(before);
        lemma_encoder_remembers(events);
        if encoder_after(before).0 is Polling {
            assert(before.len() > 0 && before.last() is Frame);
        }
        assert forall|i: int| 0 <= i < places_queued(events).len() implies #[trigger] frames_queued(
            events,
        )[i] == frames_received(events)[places_queued(events)[i]] by {
            if i < places_queued(before).len() {
                assert(frames_queued(before)[i] == frames_received(before)[places_queued(
                    before,
                )[i]]);
                assert(places_queued(events)[i] == places_queued(before)[i]);
            }
        }
    }
}

/// The frames that are queued are among those that the camera gave, in the order
/// in which it gave them, and none of them is queued twice: their places rise.
pub proof fn law_queued_frames_in_order(events: Seq<EncoderEvent>)
    requires
        encoder_admits(events),
    ensures
        places_queued(events).len() == frames_queued(events).len(),
        forall|i: int|
            #![trigger places_queued(events)[i]]
            0 <= i < places_queued(events).len() ==> 0 <= places_queued(events)[i]
                < frames_received(events).len() && frames_queued(events)[i] == frames_received(
                events,
            )[places_queued(events)[i]],
        forall|i: int, j: int|
            0 <= i < j < places_queued(events).len() ==> places_queued(events)[i]
                < places_queued(events)[j],
{
    lemma_places_queued(events);
}

/// The command channel is looked at only when the camera has just given a frame
/// that fills the buffer.
pub proof fn law_commands_wait_for_fitting_frame(events: Seq<EncoderEvent>)
    requires
        encoder_admits(events),
        encoder_after(events).1 is PollCommand,
    ensures
        events.len() > 0,
        events.last() matches EncoderEvent::Frame(frame) && last_capacity(events) matches Some(
            capacity,
        ) && capacity == frame@.len(),
{
    lemma_encoder_remembers(events);
}

/// No more commands are taken than frames came that filled the buffer: each
/// command costs one. A frame that fills the buffer and for which no command has
/// been looked for yet is not spent.
pub proof fn law_one_fitting_frame_per_command(events: Seq<EncoderEvent>)
    requires
        encoder_admits(events),
    ensures
        commands_taken(events).len() + if encoder_after(events).0 is Polling {
            1nat
        } else {
            0nat
        } <= frames_fitting(events),
    decreases events.len(),
{
    if events.len() > 0 {
        law_one_fitting_frame_per_command(events.drop_last());
        lemma_encoder_remembers(events.drop_last());
    }
}

/// As many frames are queued as commands asked for, no matter how many the camera gave.
pub proof fn law_one_frame_per_request(events: Seq<EncoderEvent>)
    requires
        encoder_admits(events),
    ensures
        frames_queued(events).len() == crate::command::frames_asked(commands_taken(events)),
    decreases events.len(),
{
    if events.len() > 0 {
        let before = events.drop_last();
        law_one_frame_per_request(before);
        lemma_encoder_remembers(before);
        if let EncoderEvent::Polled(CommandPoll::Command(command)) = events.last() {
            assert(commands_taken(events).drop_last() =~= commands_taken(before));
        }
    }
}

/// The camera is told of a resize only after an encoder was created for it and
/// started, and it is told the size that was asked for and the layout of that encoder.
pub proof fn law_camera_follows_encoder(events: Seq<EncoderEvent>, request: CameraResizeRequest)
    requires
        encoder_admits(events),
        encoder_after(events).1 == EncoderAction::NotifyCamera(request),
    ensures
        events.len() >= 4,
        events[events.len() - 1] is Done,
        events[events.len() - 2] matches EncoderEvent::Created(planes) && resize_asked(
            events[events.len() - 4],
        ) matches Some(size) && planes@.len() > 0 && request == resize_notice(size, planes@),
{
    lemma_encoder_remembers(events.drop_last());
}

/// Every resize that is taken is announced to the camera, one for one and in
/// order, but for the one that is still in work; where the loop was aborted, the
/// last one may be missing.
pub proof fn law_every_resize_announced(events: Seq<EncoderEvent>)
    requires
        encoder_admits(events),
    ensures
        match resize_in_work(encoder_after(events).0) {
            Some(size) => resizes_taken(events) == resizes_announced(events).push(size),
            None => {
                ||| resizes_taken(events) == resizes_announced(events)
                ||| encoder_after(events).1 is Abort && resizes_taken(events).len() > 0
                    && resizes_taken(events).drop_last() == resizes_announced(events)
            },
        },
    decreases events.len(),
{
    if events.len() > 0 {
        let before = events.drop_last();
        law_every_resize_announced(before);
        lemma_encoder_remembers(before);
        if let Some(size) = resize_in_work(encoder_after(before).0) {
            assert(resizes_taken(before).drop_last() =~= resizes_announced(before));
        }
    }
}

/// The loop ends without an error when the command channel is disconnected, and
/// only then; after its end it accepts nothing more.
pub proof fn law_encoder_ends_with_its_commands(events: Seq<EncoderEvent>)
    requires
        encoder_admits(events),
    ensures
        encoder_after(events).1 is Finish <==> events.len() > 0 && events.last()
            == EncoderEvent::Polled(CommandPoll::Disconnected),
        ends_encoder(encoder_after(events).1) <==> encoder_after(events).0 is Finished,
        ends_encoder(encoder_after(events).1) ==> forall|event: EncoderEvent|
            !#[trigger] encoder_admits(events.push(event)),
{
    lemma_encoder_remembers(events);
    assert forall|event: EncoderEvent| ends_encoder(encoder_after(events).1) implies
    !#[trigger] encoder_admits(events.push(event)) by {
        assert(events.push(event).drop_last() =~= events);
    }
}

/// A failure ends the loop with an error when it is the first encoder that could
/// not be created, a frame that could not be queued or a control that could not
/// be set. A failure to stop the encoder that a resize replaces ends nothing. Any
/// other failure is not survived.
pub proof fn law_encoder_failures(events: Seq<EncoderEvent>)
    requires
        encoder_admits(events),
        events.len() > 0,
        events.last() is Failed,
    ensures
        ({
            let failed = encoder_after(events.drop_last()).1;
            let next = encoder_after(events).1;
            let returned = (failed is Create && events.len() == 1) || failed is QueueFrame
                || failed is SetBitrate || failed is SetLevel || failed is SetProfile;
            let ignored = failed is Stop && events.len() >= 2 && resize_asked(
                events[events.len() - 2],
            ) is Some;
            &&& next is ReturnError <==> returned
            &&& next is Create <==> ignored
            &&& next is Abort <==> !returned && !ignored
        }),
{
    lemma_encoder_remembers(events.drop_last());
}

/// The loop takes each kind of event as the outcome of the one action that it tells
/// about. Anything else can be carried out or fail, and so can any action but a look
/// at the command channel.
pub proof fn law_encoder_accepts_only_answers(events: Seq<EncoderEvent>, event: EncoderEvent)
    requires
        encoder_admits(events),
    ensures
        ({
            let asked = encoder_after(events).1;
            let accepted = encoder_admits(events.push(event));
            let ended = asked is Finish || asked is ReturnError || asked is Abort;
            &&& event is Created ==> (accepted <==> asked is Create)
            &&& event is Buffer ==> (accepted <==> asked is TakeBuffer)
            &&& event is Frame ==> (accepted <==> asked is ReceiveFrame)
            &&& event is Polled ==> (accepted <==> asked is PollCommand)
            &&& event is Failed ==> (accepted <==> !ended && !(asked is PollCommand))
            &&& event is Done ==> (accepted <==> !ended && !(asked is Create) && !(
            asked is TakeBuffer) && !(asked is ReceiveFrame) && !(asked is PollCommand))
        }),
{
    lemma_encoder_remembers(events);
    assert(events.push(event).drop_last() =~= events);
}

/// An encoder is created at the start of the loop, for full images, and for each
/// resize once the encoder before it was told to stop: for the size that the command
/// asks for, and no other.
pub proof fn law_encoder_created_for_size_asked(events: Seq<EncoderEvent>, size: Size)
    requires
        encoder_admits(events),
    ensures
        encoder_after(events).1 == EncoderAction::Create(size) <==> (events.len() == 0 && size.width
            == 1920 && size.height == 1080) || (events.len() >= 2 && resize_asked(
            events[events.len() - 2],
        ) == Some(size)),
{
    lemma_encoder_remembers(events);
    if events.len() > 0 {
        let before = events.drop_last();
        lemma_encoder_remembers(before);
        if events.len() >= 2 {
            assert(encoder_admits(before));
            lemma_encoder_remembers(before.drop_last());
        }
    }
}

/// The encoder is stopped for a command to restart or to resize, and at no other
/// time. It is started when it was stopped to be restarted and when it was created,
/// where one that was created for a resize must tell its layout.
pub proof fn law_encoder_stopped_and_started(events: Seq<EncoderEvent>)
    requires
        encoder_admits(events),
    ensures
        ({
            let next = encoder_after(events).1;
            let n = events.len();
            let restart = EncoderEvent::Polled(CommandPoll::Command(EncoderCommand::RestartEncoder));
            &&& next is Stop <==> n > 0 && (events.last() == restart || resize_asked(
                events.last(),
            ) is Some)
            &&& next is Start <==> (n >= 2 && events.last() is Done && events[n - 2] == restart)
                || (n > 0 && match events.last() {
                EncoderEvent::Created(planes) => n == 1 || planes@.len() > 0,
                _ => false,
            })
        }),
{
    lemma_encoder_remembers(events);
    if events.len() > 0 {
        let before = events.drop_last();
        lemma_encoder_remembers(before);
        if events.len() >= 2 {
            assert(encoder_admits(before));
            lemma_encoder_remembers(before.drop_last());
        }
    }
}

/// The camera is told of a resize as soon as the encoder that was created for it is
/// started, and at no other time: the size that the command asks for, and the line
/// length and the image size of that encoder.
pub proof fn law_camera_told_of_resize(events: Seq<EncoderEvent>, request: CameraResizeRequest)
    requires
        encoder_admits(events),
    ensures
        encoder_after(events).1 == EncoderAction::NotifyCamera(request) <==> {
            let n = events.len();
            &&& n >= 4
            &&& events.last() is Done
            &&& match (events[n - 2], resize_asked(events[n - 4])) {
                (EncoderEvent::Created(planes), Some(size)) => {
                    &&& planes@.len() > 0
                    &&& request.width == size.width
                    &&& request.height == size.height
                    &&& request.stride == planes@[0].bytesperline
                    &&& request.size == planes@[0].sizeimage
                },
                _ => false,
            }
        },
{
    lemma_encoder_remembers(events);
    if events.len() > 0 {
        let before = events.drop_last();
        lemma_encoder_remembers(before);
        if events.len() >= 2 {
            assert(encoder_admits(before));
            lemma_encoder_remembers(before.drop_last());
        }
    }
}

/// A buffer is taken when a frame is discarded because no command waits for it, when
/// a command was carried out, and when an encoder was started of which the camera
/// need not be told.
pub proof fn law_buffer_taken_for_next_frame(events: Seq<EncoderEvent>)
    requires
        encoder_admits(events),
    ensures
        ({
            let n = events.len();
            let did = encoder_after(events.drop_last()).1;
            let carried_out = did is QueueFrame || did is SetBitrate || did is SetLevel
                || did is SetProfile || did is NotifyCamera;
            let told_to_none = did is Start && (n == 2 || !(events[n - 2] is Created));
            encoder_after(events).1 is TakeBuffer <==> n > 0 && (events.last()
                == EncoderEvent::Polled(CommandPoll::Empty) || (events.last() is Done && (
            carried_out || told_to_none)))
        }),
{
    lemma_encoder_remembers(events);
    if events.len() > 0 {
        lemma_encoder_remembers(events.drop_last());
    }
}

/// Whether the last event is a frame that fills the buffer that was taken last.
pub open spec fn fitting_frame_came(events: Seq<EncoderEvent>) -> bool {
    match (events.last(), last_capacity(events)) {
        (EncoderEvent::Frame(frame), Some(capacity)) => frame@.len() == capacity,
        _ => false,
    }
}

/// Every frame that fills its buffer, however large, leads to a look at the command
/// channel, and nothing else does. A frame is awaited for a new buffer, and again
/// while the frames do not fill it.
pub proof fn law_fitting_frame_leads_to_command(events: Seq<EncoderEvent>)
    requires
        encoder_admits(events),
    ensures
        encoder_after(events).1 is PollCommand <==> events.len() > 0 && fitting_frame_came(events),
        encoder_after(events).1 is ReceiveFrame <==> events.len() > 0 && (events.last() is Buffer
            || (events.last() is Frame && !fitting_frame_came(events))),
{
    lemma_encoder_remembers(events);
    if events.len() > 0 {
        lemma_encoder_remembers(events.drop_last());
    }
}

/// A frame is queued for each command that asks for one: the frame that came just
/// before the command, and none at another time.
pub proof fn law_frame_queued_on_request(events: Seq<EncoderEvent>, frame: Arc<Vec<u8>>)
    requires
        encoder_admits(events),
    ensures
        encoder_after(events).1 == EncoderAction::QueueFrame(frame) <==> events.len() >= 2
            && events.last() == EncoderEvent::Polled(CommandPoll::Command(EncoderCommand::NextFrame))
            && events[events.len() - 2] == EncoderEvent::Frame(frame),
{
    lemma_encoder_remembers(events);
    if events.len() > 0 {
        lemma_encoder_remembers(events.drop_last());
    }
}

/// A bitrate, a level or a profile is set when a command asks for it, with the value
/// of that command, and at no other time.
pub proof fn law_settings_reach_encoder(
    events: Seq<EncoderEvent>,
    bitrate: i32,
    level: H264Level,
    profile: H264Profile,
)
    requires
        encoder_admits(events),
    ensures
        encoder_after(events).1 == EncoderAction::SetBitrate(bitrate) <==> events.len() > 0
            && events.last() == EncoderEvent::Polled(
            CommandPoll::Command(EncoderCommand::SetBitrate(bitrate)),
        ),
        encoder_after(events).1 == EncoderAction::SetLevel(level) <==> events.len() > 0
            && events.last() == EncoderEvent::Polled(
            CommandPoll::Command(EncoderCommand::SetLevel(level)),
        ),
        encoder_after(events).1 == EncoderAction::SetProfile(profile) <==> events.len() > 0
            && events.last() == EncoderEvent::Polled(
            CommandPoll::Command(EncoderCommand::SetProfile(profile)),
        ),
{
    lemma_encoder_remembers(events);
    if events.len() > 0 {
        lemma_encoder_remembers(events.drop_last());
    }
}

/// The loop ends with an error only on a failure. It is aborted only on a failure, or
/// when an encoder that was created for a resize does not tell its layout.
pub proof fn law_encoder_survives_all_else(events: Seq<EncoderEvent>)
    requires
        encoder_admits(events),
        events.len() > 0,
        !(events.last() is Failed),
    ensures
        !(encoder_after(events).1 is ReturnError),
        encoder_after(events).1 is Abort <==> match events.last() {
            EncoderEvent::Created(planes) => events.len() > 1 && planes@.len() == 0,
            _ => false,
        },
{
    lemma_encoder_remembers(events);
    lemma_encoder_remembers(events.drop_last());
}

} // verus!
