use camstream::camera::{configure_resized, StreamSettings};
use camstream::camera_loop::{camera_step, CameraAction, CameraEvent, CameraState};
use camstream::command::{
    encoder_commands, CameraCommand, CameraResizeRequest, ClientCommands, EncoderCommand,
};
use camstream::encoder::{
    encoder_start, encoder_step, CommandPoll, EncoderAction, EncoderEvent, PlaneFormat,
};
use camstream::format::{pixel_format, PixelFormat};
use camstream::Size;
use std::sync::Arc;

/// Runs the encoder loop until it has taken all the commands. Returns how many
/// frames were queued, and what the camera was told.
fn run(commands: Vec<EncoderCommand>) -> (usize, Vec<CameraResizeRequest>) {
    let mut commands = commands.into_iter();
    let mut queued = 0;
    let mut notices = vec![];
    let (mut state, mut action) = encoder_start();
    loop {
        let event = match action {
            EncoderAction::Create(size) => {
                let bytesperline = size.width + 32;
                let sizeimage = bytesperline * size.height;
                EncoderEvent::Created(vec![PlaneFormat { bytesperline, sizeimage }])
            }
            EncoderAction::TakeBuffer => EncoderEvent::Buffer(3),
            EncoderAction::ReceiveFrame => EncoderEvent::Frame(Arc::new(vec![7; 3])),
            EncoderAction::PollCommand => EncoderEvent::Polled(match commands.next() {
                Some(command) => CommandPoll::Command(command),
                None => CommandPoll::Disconnected,
            }),
            EncoderAction::QueueFrame(frame) => {
                assert_eq!(*frame, [7, 7, 7]);
                queued += 1;
                EncoderEvent::Done
            }
            EncoderAction::NotifyCamera(request) => {
                notices.push(request);
                EncoderEvent::Done
            }
            EncoderAction::Finish => return (queued, notices),
            _ => EncoderEvent::Done,
        };
        assert!(state.can_accept(&event));
        (state, action) = encoder_step(state, event);
    }
}

#[test]
fn client_gets_the_frames_that_it_asked_for() {
    let mut commands = vec![EncoderCommand::RestartEncoder];
    for command in [
        ClientCommands::NextFrame,
        ClientCommands::SetBitrate(5),
        ClientCommands::NextFrame,
        ClientCommands::Resize(Size { width: 64, height: 48 }),
    ] {
        commands.extend(encoder_commands(command));
        commands.push(EncoderCommand::RestartEncoder);
    }
    assert_eq!(run(commands).0, 2);
}

#[test]
fn resize_of_a_client_reaches_the_camera() {
    let size = Size { width: 800, height: 600 };
    let (queued, notices) = run(encoder_commands(ClientCommands::Resize(size)));
    assert_eq!(queued, 0);
    assert_eq!(
        notices,
        vec![CameraResizeRequest { width: 800, height: 600, stride: 832, size: 832 * 600 }]
    );

    let found = CameraEvent::Command(Some(CameraCommand::Resize(notices[0])));
    let (state, action) = camera_step(CameraState::Checking, found);
    assert!(matches!(action, CameraAction::StopCapture));
    let (_, action) = camera_step(state, CameraEvent::Done);
    let request = match action {
        CameraAction::ConfigureResized(request) => request,
        other => panic!("{other:?}"),
    };

    let before = StreamSettings {
        pixel_format: PixelFormat { fourcc: 0, modifier: 1 },
        size: Size { width: 1, height: 1 },
        stride: 1,
    };
    let mut cfgs = vec![before, before];
    configure_resized(&mut cfgs, &request);
    assert_eq!(cfgs[0], StreamSettings { pixel_format: pixel_format(), size, stride: 832 });
    assert_eq!(cfgs[1], before);
}

#[test]
fn every_resize_is_announced_in_order() {
    let sizes = [Size { width: 64, height: 48 }, Size { width: 32, height: 24 }];
    let commands = sizes.into_iter().map(ClientCommands::Resize).flat_map(encoder_commands);
    let announced: Vec<(u32, u32)> =
        run(commands.collect()).1.iter().map(|notice| (notice.width, notice.height)).collect();
    assert_eq!(announced, vec![(64, 48), (32, 24)]);
}
