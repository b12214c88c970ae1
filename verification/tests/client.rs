use camstream::command::{
    encoder_commands, level_from_name, profile_from_name, ClientCommands, EncoderCommand,
    H264Level, H264Profile,
};
use camstream::relay::{
    client_step, relay_start, relay_step, Broadcast, ClientAction, RelayAction, RelayEvent,
    RelayState,
};
use camstream::Size;
use std::sync::Arc;

#[test]
fn profiles_have_names() {
    assert_eq!(profile_from_name(&"baseline".to_string()), H264Profile::Baseline);
    assert_eq!(profile_from_name(&"main".to_string()), H264Profile::Main);
    assert_eq!(profile_from_name(&"high".to_string()), H264Profile::High);
    assert_eq!(profile_from_name(&"High".to_string()), H264Profile::Baseline);
    assert_eq!(profile_from_name(&String::new()), H264Profile::Baseline);
}

#[test]
fn levels_have_names() {
    let names = [
        ("11", H264Level::L1_1),
        ("21", H264Level::L2_1),
        ("22", H264Level::L2_2),
        ("3", H264Level::L3_1),
        ("32", H264Level::L3_2),
        ("4", H264Level::L4_0),
        ("41", H264Level::L4_1),
        ("42", H264Level::L4_2),
        ("31", H264Level::L4_2),
        ("", H264Level::L4_2),
    ];
    for (name, level) in names {
        assert_eq!(level_from_name(&name.to_string()), level, "{name}");
    }
}

#[test]
fn resize_is_followed_by_a_restart() {
    let size = Size { width: 640, height: 480 };
    assert_eq!(
        encoder_commands(ClientCommands::Resize(size)),
        vec![EncoderCommand::Resize(size), EncoderCommand::RestartEncoder]
    );
}

#[test]
fn other_commands_are_passed_on_one_for_one() {
    assert_eq!(
        encoder_commands(ClientCommands::SetBitrate(2_000_000)),
        vec![EncoderCommand::SetBitrate(2_000_000)]
    );
    assert_eq!(
        encoder_commands(ClientCommands::SetProfile("main".to_string())),
        vec![EncoderCommand::SetProfile(H264Profile::Main)]
    );
    assert_eq!(
        encoder_commands(ClientCommands::SetLevel("41".to_string())),
        vec![EncoderCommand::SetLevel(H264Level::L4_1)]
    );
    assert_eq!(
        encoder_commands(ClientCommands::RestartEncoder),
        vec![EncoderCommand::RestartEncoder]
    );
    assert_eq!(encoder_commands(ClientCommands::NextFrame), vec![EncoderCommand::NextFrame]);
}

#[test]
fn commands_stay_in_order_and_none_is_lost() {
    let size = Size { width: 1, height: 2 };
    let commands = vec![
        ClientCommands::NextFrame,
        ClientCommands::Resize(size),
        ClientCommands::NextFrame,
    ];
    let forwarded: Vec<EncoderCommand> =
        commands.into_iter().flat_map(encoder_commands).collect();
    assert_eq!(
        forwarded,
        vec![
            EncoderCommand::NextFrame,
            EncoderCommand::Resize(size),
            EncoderCommand::RestartEncoder,
            EncoderCommand::NextFrame,
        ]
    );
}

#[test]
fn client_without_messages_is_closed() {
    assert!(matches!(client_step(None), ClientAction::Close));
    assert!(matches!(
        client_step(Some(ClientCommands::NextFrame)),
        ClientAction::Forward(commands) if commands == [EncoderCommand::NextFrame]
    ));
}

fn step(state: RelayState, event: RelayEvent) -> (RelayState, RelayAction) {
    assert!(state.can_accept(&event));
    relay_step(state, event)
}

fn receiving() -> RelayState {
    let (state, action) = relay_start();
    assert!(matches!(action, RelayAction::Command(EncoderCommand::RestartEncoder)));
    let (state, action) = step(state, RelayEvent::Done);
    assert!(matches!(action, RelayAction::Receive));
    state
}

#[test]
fn frames_are_sent_as_they_were_received() {
    let mut state = receiving();
    let mut sent: Vec<Vec<u8>> = vec![];
    for frame in [vec![1u8, 2, 3], vec![], vec![255; 5]] {
        let received = RelayEvent::Received(Broadcast::Frame(Arc::new(frame)));
        let (sending, action) = step(state, received);
        match action {
            RelayAction::Send(bytes) => sent.push(bytes.to_vec()),
            other => panic!("{other:?}"),
        }
        let (next, action) = step(sending, RelayEvent::Done);
        assert!(matches!(action, RelayAction::Receive));
        state = next;
    }
    assert_eq!(sent, vec![vec![1, 2, 3], vec![], vec![255; 5]]);
}

#[test]
fn lost_frames_do_not_end_the_relay() {
    let (state, action) = step(receiving(), RelayEvent::Received(Broadcast::Lagged));
    assert!(matches!(action, RelayAction::Receive));
    assert_eq!(state, RelayState::Receiving);
}

#[test]
fn closed_channel_ends_the_relay() {
    let (state, action) = step(receiving(), RelayEvent::Received(Broadcast::Closed));
    assert!(matches!(action, RelayAction::Finish));
    assert!(!state.can_accept(&RelayEvent::Done));
    assert!(!state.can_accept(&RelayEvent::Received(Broadcast::Lagged)));
}

#[test]
fn client_that_cannot_be_sent_to_is_aborted() {
    let (_, action) = step(relay_start().0, RelayEvent::Failed);
    assert!(matches!(action, RelayAction::Abort));
    let received = RelayEvent::Received(Broadcast::Frame(Arc::new(vec![1])));
    let (state, _) = step(receiving(), received);
    let (state, action) = step(state, RelayEvent::Failed);
    assert!(matches!(action, RelayAction::Abort));
    assert!(!state.can_accept(&RelayEvent::Done));
}
