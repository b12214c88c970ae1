//! What is done for one client of the server: its commands are passed on to the
//! encoder, and the encoded frames are passed on to it.

use crate::command::{ClientCommands, EncoderCommand, encoder_commands};
use std::sync::Arc;
use tokio_util::bytes::Bytes;
use vstd::prelude::*;

verus! {

/// `bytes::Bytes`, the network library's shared byte string.
#[verifier::external_type_specification]
#[verifier::external_body]
pub struct ExBytes(Bytes);

/// The bytes that a byte string holds.
pub uninterp spec fn bytes_held(bytes: Bytes) -> Seq<u8>;

/// `Bytes::copy_from_slice` makes a byte string that holds a copy of the slice,
/// byte for byte.
pub assume_specification[ Bytes::copy_from_slice ](data: &[u8]) -> (bytes: Bytes)
    ensures
        bytes_held(bytes) == data@,
;

/// What to do about a client's message.
#[derive(Debug)]
pub enum ClientAction {
    /// Send these commands to the encoder, in order.
    Forward(Vec<EncoderCommand>),
    /// Send nothing more for this client.
    Close,
}

/// Takes the next message of a client, `None` when there are no more.
pub fn client_step(message: Option<ClientCommands>) -> (action: ClientAction)
    ensures
        match message {
            Some(command) => action matches ClientAction::Forward(commands) && commands@
                == crate::command::commands_for(command),
            None => action is Close,
        },
{
    match message {
        Some(command) => ClientAction::Forward(encoder_commands(command)),
        None => ClientAction::Close,
    }
}

/// What came out of the channel that carries the encoded frames.
#[derive(Debug)]
pub enum Broadcast {
    /// The next frame.
    Frame(Arc<Vec<u8>>),
    /// Frames were lost, since the client was too slow for them.
    Lagged,
    /// No more frames will come.
    Closed,
}

/// What came of an action.
#[derive(Debug)]
pub enum RelayEvent {
    /// The frame channel gave this.
    Received(Broadcast),
    /// Any other action was carried out.
    Done,
    /// The action failed.
    Failed,
}

/// What to do next.
#[derive(Debug)]
pub enum RelayAction {
    /// Send this command to the encoder.
    Command(EncoderCommand),
    /// Wait for the frame channel.
    Receive,
    /// Send this to the client, and flush.
    Send(Bytes),
    /// End the loop.
    Finish,
    /// Panic: the client is not meant to be served from here on.
    Abort,
}

/// Where the loop stands.
#[derive(Debug, Clone, Copy, PartialEq, Eq, Structural)]
pub enum RelayState {
    /// The encoder is being restarted for the new client.
    Restarting,
    /// The frame channel is being waited for.
    Receiving,
    /// A frame is being sent.
    Sending,
    /// The loop has ended.
    Finished,
}

/// An action, with the bytes that it sends.
#[verifier::ext_equal]
pub enum RelayActionView {
    Command(EncoderCommand),
    Receive,
    Send(Seq<u8>),
    Finish,
    Abort,
}

impl View for RelayAction {
    type V = RelayActionView;

    open spec fn view(&self) -> RelayActionView {
        match *self {
            RelayAction::Command(command) => RelayActionView::Command(command),
            RelayAction::Receive => RelayActionView::Receive,
            RelayAction::Send(bytes) => RelayActionView::Send(bytes_held(bytes)),
            RelayAction::Finish => RelayActionView::Finish,
            RelayAction::Abort => RelayActionView::Abort,
        }
    }
}

impl RelayState {
    /// Whether the event can come of the action that led to this state.
    pub open spec fn accepts(self, event: RelayEvent) -> bool {
        match self {
            RelayState::Receiving => event is Received,
            RelayState::Restarting | RelayState::Sending => event is Done || event is Failed,
            RelayState::Finished => false,
        }
    }

    /// Tells whether the event can come of the action that led to this state.
    pub fn can_accept(&self, event: &RelayEvent) -> (result: bool)
        ensures
            result == self.accepts(*event),
    {
        match (self, event) {
            (RelayState::Receiving, RelayEvent::Received(_)) => true,
            (RelayState::Restarting, RelayEvent::Done) => true,
            (RelayState::Sending, RelayEvent::Done) => true,
            (RelayState::Restarting, RelayEvent::Failed) => true,
            (RelayState::Sending, RelayEvent::Failed) => true,
            _ => false,
        }
    }
}

/// The state and the action at the beginning of the loop.
pub open spec fn relay_first() -> (RelayState, RelayActionView) {
    (RelayState::Restarting, RelayActionView::Command(EncoderCommand::RestartEncoder))
}

/// The state after an event, and the action that leads there.
pub open spec fn relay_next(event: RelayEvent) -> (RelayState, RelayActionView) {
    match event {
        RelayEvent::Received(Broadcast::Frame(frame)) => (
            RelayState::Sending,
            RelayActionView::Send(frame@),
        ),
        RelayEvent::Received(Broadcast::Lagged) => (
            RelayState::Receiving,
            RelayActionView::Receive,
        ),
        RelayEvent::Received(Broadcast::Closed) => (RelayState::Finished, RelayActionView::Finish),
        RelayEvent::Done => (RelayState::Receiving, RelayActionView::Receive),
        RelayEvent::Failed => (RelayState::Finished, RelayActionView::Abort),
    }
}

/// Begins the loop: the encoder is restarted for the new client.
pub fn relay_start() -> (first: (RelayState, RelayAction))
    ensures
        first.0 == relay_first().0,
        first.1@ == relay_first().1,
        first.1 == RelayAction::Command(EncoderCommand::RestartEncoder),
{
    (RelayState::Restarting, RelayAction::Command(EncoderCommand::RestartEncoder))
}

/// Takes what came of the last action, and says what to do next.
pub fn relay_step(state: RelayState, event: RelayEvent) -> (next: (RelayState, RelayAction))
    requires
        state.accepts(event),
    ensures
        next.0 == relay_next(event).0,
        next.1@ == relay_next(event).1,
        match event {
            RelayEvent::Received(Broadcast::Frame(frame)) => next.1 matches RelayAction::Send(bytes)
                && bytes_held(bytes) == frame@,
            RelayEvent::Received(Broadcast::Closed) => next.1 is Finish,
            RelayEvent::Failed => next.1 is Abort,
            _ => next.1 is Receive,
        },
{
    match event {
        RelayEvent::Received(Broadcast::Frame(frame)) => (
            RelayState::Sending,
            RelayAction::Send(Bytes::copy_from_slice(frame.as_slice())),
        ),
        RelayEvent::Received(Broadcast::Lagged) => (RelayState::Receiving, RelayAction::Receive),
        RelayEvent::Received(Broadcast::Closed) => (RelayState::Finished, RelayAction::Finish),
        RelayEvent::Done => (RelayState::Receiving, RelayAction::Receive),
        RelayEvent::Failed => (RelayState::Finished, RelayAction::Abort),
    }
}

/// Whether the events can follow each other, from the beginning of the loop.
pub open spec fn relay_admits(events: Seq<RelayEvent>) -> bool
    decreases events.len(),
{
    events.len() == 0 || (relay_admits(events.drop_last()) && relay_after(
        events.drop_last(),
    ).0.accepts(events.last()))
}

/// The state and the action after the events, from the beginning of the loop.
pub open spec fn relay_after(events: Seq<RelayEvent>) -> (RelayState, RelayActionView) {
    if events.len() == 0 {
        relay_first()
    } else {
        relay_next(events.last())
    }
}

/// The frames that the frame channel gave, in order.
pub open spec fn frames_received(events: Seq<RelayEvent>) -> Seq<Seq<u8>>
    decreases events.len(),
{
    if events.len() == 0 {
        Seq::empty()
    } else if let RelayEvent::Received(Broadcast::Frame(frame)) = events.last() {
        frames_received(events.drop_last()).push(frame@)
    } else {
        frames_received(events.drop_last())
    }
}

/// What was sent to the client, in order.
pub open spec fn frames_sent(events: Seq<RelayEvent>) -> Seq<Seq<u8>>
    decreases events.len(),
{
    if events.len() == 0 {
        Seq::empty()
    } else if let RelayActionView::Send(data) = relay_after(events).1 {
        frames_sent(events.drop_last()).push(data)
    } else {
        frames_sent(events.drop_last())
    }
}

/// Whether the event is an outcome of the action.
pub open spec fn relay_answers(action: RelayActionView, event: RelayEvent) -> bool {
    match action {
        RelayActionView::Receive => event is Received,
        RelayActionView::Finish | RelayActionView::Abort => false,
        _ => event is Done || event is Failed,
    }
}

/// Every outcome of the action that the loop asks for is an event that it then accepts.
pub proof fn law_relay_accepts_answers(events: Seq<RelayEvent>, event: RelayEvent)
    requires
        relay_admits(events),
        relay_answers(relay_after(events).1, event),
    ensures
        relay_admits(events.push(event)),
{
    assert(events.push(event).drop_last() =~= events);
}

/// A client is sent every frame that the frame channel gave, byte for byte, once
/// and in order, and nothing else.
pub proof fn law_frames_sent_as_received(events: Seq<RelayEvent>)
    requires
        relay_admits(events),
    ensures
        frames_sent(events) == frames_received(events),
    decreases events.len(),
{
    if events.len() > 0 {
        law_frames_sent_as_received(events.drop_last());
    }
}

/// The encoder is restarted for every client, before anything is received for it,
/// and never again by its relay.
pub proof fn law_relay_restarts_encoder_once(events: Seq<RelayEvent>)
    requires
        relay_admits(events),
    ensures
        relay_after(events).1 == RelayActionView::Command(EncoderCommand::RestartEncoder)
            <==> events.len() == 0,
        relay_after(events).1 is Command <==> events.len() == 0,
{
}

/// The relay ends when the frame channel is closed, and is aborted when something
/// cannot be sent; nothing else ends it, and lost frames do not.
pub proof fn law_relay_ends_with_its_channel(events: Seq<RelayEvent>)
    requires
        relay_admits(events),
    ensures
        relay_after(events).1 is Finish <==> events.len() > 0 && events.last()
            == RelayEvent::Received(Broadcast::Closed),
        relay_after(events).1 is Abort <==> events.len() > 0 && events.last() is Failed,
        relay_after(events).0 is Finished <==> relay_after(events).1 is Finish || relay_after(
            events,
        ).1 is Abort,
{
}

/// The relay takes what the frame channel gave when it waits for it. What it does
/// besides can be carried out or fail, until it has ended.
pub proof fn law_relay_accepts_only_answers(events: Seq<RelayEvent>, event: RelayEvent)
    requires
        relay_admits(events),
    ensures
        ({
            let asked = relay_after(events).1;
            let accepted = relay_admits(events.push(event));
            &&& event is Received ==> (accepted <==> asked is Receive)
            &&& event is Done || event is Failed ==> (accepted <==> asked is Command
                || asked is Send)
        }),
{
    assert(events.push(event).drop_last() =~= events);
}

/// A frame is sent when the channel gave it, all its bytes and no others. The channel
/// is waited for again after everything that was carried out, and when frames were
/// lost.
pub proof fn law_relay_sends_on(events: Seq<RelayEvent>, data: Seq<u8>)
    requires
        relay_admits(events),
    ensures
        relay_after(events).1 == RelayActionView::Send(data) <==> events.len() > 0
            && match events.last() {
            RelayEvent::Received(Broadcast::Frame(frame)) => frame@ == data,
            _ => false,
        },
        relay_after(events).1 is Receive <==> events.len() > 0 && (events.last() is Done
            || events.last() == RelayEvent::Received(Broadcast::Lagged)),
{
}

} // verus!
