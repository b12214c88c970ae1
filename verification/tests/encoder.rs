use camstream::command::{CameraResizeRequest, EncoderCommand, H264Level, H264Profile};
use camstream::encoder::{
    encoded_output, encoder_setup, encoder_start, encoder_step, fill_buffer, CommandPoll,
    EncoderAction, EncoderEvent, EncoderState, PlaneFormat,
};
use camstream::fixed_encoder::{fixed_start, fixed_step, FixedAction, FixedEvent, FixedState};
use camstream::Size;
use std::sync::Arc;

fn step(state: EncoderState, event: EncoderEvent) -> (EncoderState, EncoderAction) {
    assert!(state.can_accept(&event));
    encoder_step(state, event)
}

/// A loop that awaits a frame of four bytes.
fn awaiting_frame() -> EncoderState {
    let (state, action) = encoder_start();
    assert!(matches!(action, EncoderAction::Create(Size { width: 1920, height: 1080 })));
    let (state, action) = step(state, EncoderEvent::Created(vec![]));
    assert!(matches!(action, EncoderAction::Start));
    let (state, action) = step(state, EncoderEvent::Done);
    assert!(matches!(action, EncoderAction::TakeBuffer));
    let (state, action) = step(state, EncoderEvent::Buffer(4));
    assert!(matches!(action, EncoderAction::ReceiveFrame));
    state
}

/// What is done about a command.
fn respond(command: EncoderCommand) -> (EncoderState, EncoderAction) {
    let (state, action) = step(awaiting_frame(), EncoderEvent::Frame(Arc::new(vec![1, 2, 3, 4])));
    assert!(matches!(action, EncoderAction::PollCommand));
    step(state, EncoderEvent::Polled(CommandPoll::Command(command)))
}

#[test]
fn encoder_is_set_up_for_the_size() {
    let setup = encoder_setup(Size { width: 800, height: 600 });
    assert_eq!(&setup.capture.pixel_format, b"H264");
    assert_eq!(&setup.output.pixel_format, b"NV12");
    assert_eq!((setup.capture.width, setup.capture.height), (800, 600));
    assert_eq!((setup.output.width, setup.output.height), (800, 600));
    assert_eq!(setup.buffers, 10);
}

#[test]
fn frames_that_do_not_fit_are_passed_over() {
    let (state, action) = step(awaiting_frame(), EncoderEvent::Frame(Arc::new(vec![1, 2, 3])));
    assert!(matches!(action, EncoderAction::ReceiveFrame));
    let (state, action) = step(state, EncoderEvent::Frame(Arc::new(vec![1, 2, 3, 4, 5])));
    assert!(matches!(action, EncoderAction::ReceiveFrame));
    let (_, action) = step(state, EncoderEvent::Frame(Arc::new(vec![1, 2, 3, 4])));
    assert!(matches!(action, EncoderAction::PollCommand));
}

#[test]
fn frame_that_was_asked_for_is_queued() {
    let (state, action) = respond(EncoderCommand::NextFrame);
    assert!(matches!(action, EncoderAction::QueueFrame(frame) if *frame == [1, 2, 3, 4]));
    let (_, action) = step(state, EncoderEvent::Done);
    assert!(matches!(action, EncoderAction::TakeBuffer));
}

#[test]
fn frame_that_nobody_asked_for_is_discarded() {
    let (state, _) = step(awaiting_frame(), EncoderEvent::Frame(Arc::new(vec![1, 2, 3, 4])));
    let (state, action) = step(state, EncoderEvent::Polled(CommandPoll::Empty));
    assert!(matches!(action, EncoderAction::TakeBuffer));
    assert!(matches!(state, EncoderState::TakingBuffer));
}

#[test]
fn loop_ends_when_the_commands_do() {
    let (state, _) = step(awaiting_frame(), EncoderEvent::Frame(Arc::new(vec![1, 2, 3, 4])));
    let (state, action) = step(state, EncoderEvent::Polled(CommandPoll::Disconnected));
    assert!(matches!(action, EncoderAction::Finish));
    assert!(!state.can_accept(&EncoderEvent::Done));
    assert!(!state.can_accept(&EncoderEvent::Buffer(4)));
}

#[test]
fn settings_are_passed_to_the_encoder() {
    let (_, action) = respond(EncoderCommand::SetBitrate(-5));
    assert!(matches!(action, EncoderAction::SetBitrate(-5)));
    let (_, action) = respond(EncoderCommand::SetLevel(H264Level::L4_1));
    assert!(matches!(action, EncoderAction::SetLevel(H264Level::L4_1)));
    let (_, action) = respond(EncoderCommand::SetProfile(H264Profile::High));
    assert!(matches!(action, EncoderAction::SetProfile(H264Profile::High)));
}

#[test]
fn restart_stops_and_starts_the_encoder() {
    let (state, action) = respond(EncoderCommand::RestartEncoder);
    assert!(matches!(action, EncoderAction::Stop));
    let (state, action) = step(state, EncoderEvent::Done);
    assert!(matches!(action, EncoderAction::Start));
    let (_, action) = step(state, EncoderEvent::Done);
    assert!(matches!(action, EncoderAction::TakeBuffer));
}

#[test]
fn resize_creates_an_encoder_and_tells_the_camera() {
    let (state, action) = respond(EncoderCommand::Resize(Size { width: 800, height: 600 }));
    assert!(matches!(action, EncoderAction::Stop));
    let (state, action) = step(state, EncoderEvent::Done);
    assert!(matches!(action, EncoderAction::Create(Size { width: 800, height: 600 })));
    let planes = vec![
        PlaneFormat { bytesperline: 832, sizeimage: 748_800 },
        PlaneFormat { bytesperline: 1, sizeimage: 2 },
    ];
    let (state, action) = step(state, EncoderEvent::Created(planes));
    assert!(matches!(action, EncoderAction::Start));
    let (state, action) = step(state, EncoderEvent::Done);
    let wanted = CameraResizeRequest { width: 800, height: 600, stride: 832, size: 748_800 };
    assert!(matches!(action, EncoderAction::NotifyCamera(request) if request == wanted));
    let (_, action) = step(state, EncoderEvent::Done);
    assert!(matches!(action, EncoderAction::TakeBuffer));
}

#[test]
fn encoder_that_is_replaced_need_not_stop() {
    let (state, _) = respond(EncoderCommand::Resize(Size { width: 800, height: 600 }));
    let (state, action) = step(state, EncoderEvent::Failed);
    assert!(matches!(action, EncoderAction::Create(Size { width: 800, height: 600 })));
    // A resize needs the layout of the new encoder.
    let (_, action) = step(state, EncoderEvent::Created(vec![]));
    assert!(matches!(action, EncoderAction::Abort));
}

#[test]
fn encoder_that_cannot_be_created_is_an_error_at_the_start_only() {
    let (state, _) = encoder_start();
    let (state, action) = step(state, EncoderEvent::Failed);
    assert!(matches!(action, EncoderAction::ReturnError));
    assert!(!state.can_accept(&EncoderEvent::Failed));

    let (state, _) = respond(EncoderCommand::Resize(Size { width: 800, height: 600 }));
    let (state, _) = step(state, EncoderEvent::Done);
    let (_, action) = step(state, EncoderEvent::Failed);
    assert!(matches!(action, EncoderAction::Abort));
}

#[test]
fn failed_settings_and_frames_are_returned() {
    for command in [
        EncoderCommand::NextFrame,
        EncoderCommand::SetBitrate(1),
        EncoderCommand::SetLevel(H264Level::L4_2),
        EncoderCommand::SetProfile(H264Profile::Main),
    ] {
        let (state, _) = respond(command);
        let (_, action) = step(state, EncoderEvent::Failed);
        assert!(matches!(action, EncoderAction::ReturnError));
    }
}

#[test]
fn other_failures_of_the_encoder_abort() {
    let (_, action) = step(awaiting_frame(), EncoderEvent::Failed);
    assert!(matches!(action, EncoderAction::Abort));
    let (_, action) = step(EncoderState::TakingBuffer, EncoderEvent::Failed);
    assert!(matches!(action, EncoderAction::Abort));
    let (state, _) = respond(EncoderCommand::RestartEncoder);
    let (_, action) = step(state, EncoderEvent::Failed);
    assert!(matches!(action, EncoderAction::Abort));
}

#[test]
fn one_frame_is_queued_per_request() {
    let polls = [
        CommandPoll::Command(EncoderCommand::NextFrame),
        CommandPoll::Empty,
        CommandPoll::Command(EncoderCommand::SetBitrate(1)),
        CommandPoll::Command(EncoderCommand::NextFrame),
        CommandPoll::Empty,
    ];
    let mut queued: Vec<u8> = vec![];
    let mut state = awaiting_frame();
    for (place, poll) in polls.into_iter().enumerate() {
        let (polling, _) = step(state, EncoderEvent::Frame(Arc::new(vec![place as u8; 4])));
        let (mut next, mut action) = step(polling, EncoderEvent::Polled(poll));
        if let EncoderAction::QueueFrame(frame) = &action {
            queued.push(frame[0]);
        }
        if !matches!(action, EncoderAction::TakeBuffer) {
            (next, action) = step(next, EncoderEvent::Done);
        }
        assert!(matches!(action, EncoderAction::TakeBuffer));
        state = step(next, EncoderEvent::Buffer(4)).0;
    }
    assert_eq!(queued, vec![0, 3]);
}

#[test]
fn buffer_is_filled_with_the_frame() {
    let mut mapping = [9u8; 4];
    assert_eq!(fill_buffer(&mut mapping, &vec![1, 2, 3, 4]), 4);
    assert_eq!(mapping, [1, 2, 3, 4]);
    assert_eq!(fill_buffer(&mut [], &vec![]), 0);
}

#[test]
fn empty_output_is_ignored() {
    assert_eq!(encoded_output(0, &[1, 2, 3]), None);
    assert_eq!(encoded_output(3, &[1, 2, 3]), Some(vec![1, 2, 3]));
    assert_eq!(encoded_output(1, &[]), Some(vec![]));
}

fn fixed(state: FixedState, event: FixedEvent) -> (FixedState, FixedAction) {
    assert!(state.can_accept(&event));
    fixed_step(state, event)
}

#[test]
fn fixed_encoder_queues_every_frame_in_order() {
    let (state, action) = fixed_start();
    assert!(matches!(action, FixedAction::Create(Size { width: 1920, height: 1080 })));
    let (state, action) = fixed(state, FixedEvent::Done);
    assert!(matches!(action, FixedAction::Start));
    let (mut state, mut action) = fixed(state, FixedEvent::Done);
    let mut queued = vec![];
    for frame in [vec![1u8, 2], vec![3, 4], vec![5, 6]] {
        assert!(matches!(action, FixedAction::TakeBuffer));
        (state, action) = fixed(state, FixedEvent::Buffer(Some(2)));
        assert!(matches!(action, FixedAction::ReceiveFrame));
        (state, action) = fixed(state, FixedEvent::Frame(Arc::new(frame)));
        match action {
            FixedAction::QueueFrame(frame) => queued.push(frame.to_vec()),
            other => panic!("{other:?}"),
        }
        (state, action) = fixed(state, FixedEvent::Done);
    }
    assert_eq!(queued, vec![vec![1, 2], vec![3, 4], vec![5, 6]]);
}

#[test]
fn fixed_encoder_passes_over_other_buffers() {
    let (state, _) = fixed_start();
    let (state, _) = fixed(state, FixedEvent::Done);
    let (state, _) = fixed(state, FixedEvent::Done);
    let (state, action) = fixed(state, FixedEvent::Buffer(None));
    assert!(matches!(action, FixedAction::TakeBuffer));
    assert!(!state.can_accept(&FixedEvent::Done));
}

#[test]
fn fixed_encoder_takes_only_frames_that_fit() {
    let awaiting = || FixedState::AwaitingFrame { capacity: 2 };
    let (_, action) = fixed(awaiting(), FixedEvent::Frame(Arc::new(vec![1])));
    assert!(matches!(action, FixedAction::Abort));
    let (_, action) = fixed(awaiting(), FixedEvent::Frame(Arc::new(vec![1, 2])));
    assert!(matches!(action, FixedAction::QueueFrame(_)));
}

#[test]
fn fixed_encoder_fails_as_the_action_says() {
    for state in [FixedState::Creating, FixedState::Starting, FixedState::Queueing] {
        let (state, action) = fixed(state, FixedEvent::Failed);
        assert!(matches!(action, FixedAction::ReturnError));
        assert!(!state.can_accept(&FixedEvent::Done));
    }
    for state in [FixedState::TakingBuffer, FixedState::AwaitingFrame { capacity: 2 }] {
        let (_, action) = fixed(state, FixedEvent::Failed);
        assert!(matches!(action, FixedAction::Abort));
    }
}
