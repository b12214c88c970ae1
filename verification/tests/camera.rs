use camstream::buffer::ReadError;
use camstream::camera::{
    configure_camera, configure_initially, configure_resized, plan_requests, StreamSettings,
    STREAMS,
};
use camstream::camera_loop::{
    camera_start, camera_step, CameraAction, CameraEvent, CameraState, ConfigurationStatus,
};
use camstream::command::{CameraCommand, CameraResizeRequest};
use camstream::format::{fourcc, pixel_format, PixelFormat, ENCODED_PF, PF};
use camstream::Size;

fn settings(width: u32, height: u32, stride: u32) -> StreamSettings {
    StreamSettings {
        pixel_format: PixelFormat { fourcc: 7, modifier: 9 },
        size: Size { width, height },
        stride,
    }
}

#[test]
fn four_character_codes_are_little_endian() {
    assert_eq!(&PF, b"NV12");
    assert_eq!(&ENCODED_PF, b"H264");
    assert_eq!(fourcc(&PF), u32::from_le_bytes(*b"NV12"));
    assert_eq!(fourcc(&[0xff, 0xff, 0xff, 0xff]), u32::MAX);
    assert_eq!(fourcc(&[1, 2, 3, 4]), 0x0403_0201);
    assert_eq!(pixel_format(), PixelFormat { fourcc: 0x3231_564e, modifier: 0 });
}

#[test]
fn configuring_one_stream_leaves_the_other_alone() {
    let mut cfgs = vec![settings(1, 2, 3), settings(4, 5, 6)];
    configure_camera(&mut cfgs, 1, 640, 480, Some(704));
    assert_eq!(cfgs[0], settings(1, 2, 3));
    assert_eq!(cfgs[1].pixel_format, pixel_format());
    assert_eq!(cfgs[1].size, Size { width: 640, height: 480 });
    assert_eq!(cfgs[1].stride, 704);
}

#[test]
fn stride_stays_where_none_is_given() {
    let mut cfgs = vec![settings(1, 2, 3)];
    configure_camera(&mut cfgs, 0, 640, 480, None);
    assert_eq!(cfgs[0].stride, 3);
    assert_eq!(cfgs[0].size, Size { width: 640, height: 480 });
}

#[test]
fn initial_configuration_sets_both_streams() {
    let mut cfgs = vec![settings(1, 2, 3), settings(4, 5, 6)];
    configure_initially(&mut cfgs);
    assert_eq!(cfgs[0].size, Size { width: 1080, height: 720 });
    assert_eq!(cfgs[1].size, Size { width: 1920, height: 1080 });
    assert_eq!((cfgs[0].stride, cfgs[1].stride), (3, 6));
    assert_eq!(cfgs[0].pixel_format, pixel_format());
    assert_eq!(cfgs[1].pixel_format, pixel_format());
}

#[test]
fn resize_configures_the_variable_stream() {
    let mut cfgs = vec![settings(1, 2, 3), settings(4, 5, 6)];
    let request = CameraResizeRequest { width: 800, height: 600, stride: 832, size: 748_800 };
    configure_resized(&mut cfgs, &request);
    assert_eq!(cfgs[0].size, Size { width: 800, height: 600 });
    assert_eq!(cfgs[0].stride, 832);
    assert_eq!(cfgs[1], settings(4, 5, 6));
}

#[test]
fn requests_pair_buffers_in_order() {
    let plans = plan_requests(vec!["a", "b", "c"], vec![10, 20, 30]);
    let flat: Vec<(u64, &str, i32)> =
        plans.into_iter().map(|plan| (plan.cookie, plan.variable, plan.fixed)).collect();
    assert_eq!(flat, vec![(0, "a", 10), (1, "b", 20), (2, "c", 30)]);
}

#[test]
fn buffers_without_a_partner_are_left_out() {
    let plans = plan_requests(vec!["a", "b", "c"], vec![10]);
    assert_eq!(plans.len(), 1);
    assert_eq!((plans[0].cookie, plans[0].variable, plans[0].fixed), (0, "a", 10));
    let plans = plan_requests(vec!["a"], vec![10, 20]);
    assert_eq!(plans.len(), 1);
    assert_eq!((plans[0].cookie, plans[0].variable, plans[0].fixed), (0, "a", 10));
    assert!(plan_requests(Vec::<u8>::new(), vec![1, 2]).is_empty());
}

fn step(state: CameraState, event: CameraEvent) -> (CameraState, CameraAction) {
    assert!(state.can_accept(&event));
    camera_step(state, event)
}

fn validating() -> CameraState {
    let (state, action) = camera_start();
    assert!(matches!(action, CameraAction::ConfigureInitially));
    let (state, action) = step(state, CameraEvent::Done);
    assert!(matches!(action, CameraAction::Validate));
    state
}

/// A camera that is about to be started, with its requests to be created.
fn acquired() -> CameraState {
    let (state, action) = step(validating(), CameraEvent::Validated(ConfigurationStatus::Valid));
    assert!(matches!(action, CameraAction::Acquire));
    let (state, action) = step(state, CameraEvent::Done);
    assert!(matches!(action, CameraAction::Apply));
    let (state, action) = step(state, CameraEvent::Done);
    assert!(matches!(action, CameraAction::CreateRequests));
    state
}

fn running() -> CameraState {
    let (state, action) = step(acquired(), CameraEvent::Created(2));
    assert!(matches!(action, CameraAction::StartCapture));
    let (state, action) = step(state, CameraEvent::Done);
    assert!(matches!(action, CameraAction::QueueRequest(0)));
    let (state, action) = step(state, CameraEvent::Done);
    assert!(matches!(action, CameraAction::QueueRequest(1)));
    let (state, action) = step(state, CameraEvent::Done);
    assert!(matches!(action, CameraAction::Subscribe));
    let (state, action) = step(state, CameraEvent::Done);
    assert!(matches!(action, CameraAction::CheckCommand));
    state
}

#[test]
fn invalid_configuration_is_rejected() {
    let invalid = CameraEvent::Validated(ConfigurationStatus::Invalid);
    let (state, action) = step(validating(), invalid);
    assert!(matches!(action, CameraAction::Reject));
    assert!(!state.can_accept(&CameraEvent::Done));
    assert!(!state.can_accept(&CameraEvent::Failed));
    assert!(!state.can_accept(&CameraEvent::Command(None)));
}

#[test]
fn adjusted_configuration_is_used() {
    let adjusted = CameraEvent::Validated(ConfigurationStatus::Adjusted);
    let (_, action) = step(validating(), adjusted);
    assert!(matches!(action, CameraAction::Acquire));
}

#[test]
fn camera_without_requests_is_started_all_the_same() {
    let (state, action) = step(acquired(), CameraEvent::Created(0));
    assert!(matches!(action, CameraAction::StartCapture));
    let (_, action) = step(state, CameraEvent::Done);
    assert!(matches!(action, CameraAction::Subscribe));
}

#[test]
fn each_stream_is_read_and_delivered_once_per_request() {
    let (state, action) = step(running(), CameraEvent::Command(None));
    assert!(matches!(action, CameraAction::AwaitRequest));
    let (state, action) = step(state, CameraEvent::Completed);
    assert!(matches!(action, CameraAction::ReadStream(0)));
    let (state, action) = step(state, CameraEvent::Read(Ok(vec![1, 2])));
    assert!(matches!(action, CameraAction::Deliver(0, data) if data == [1, 2]));
    let (state, action) = step(state, CameraEvent::Done);
    assert!(matches!(action, CameraAction::ReadStream(1)));
    let (state, action) = step(state, CameraEvent::Read(Ok(vec![3])));
    assert!(matches!(action, CameraAction::Deliver(1, data) if data == [3]));
    let (state, action) = step(state, CameraEvent::Done);
    assert!(matches!(action, CameraAction::Requeue));
    let (_, action) = step(state, CameraEvent::Done);
    assert!(matches!(action, CameraAction::CheckCommand));
    assert_eq!(STREAMS, 2);
}

#[test]
fn unreadable_frames_are_skipped_and_the_request_is_queued_again() {
    let (state, _) = step(running(), CameraEvent::Command(Some(CameraCommand::Empty)));
    let (state, _) = step(state, CameraEvent::Completed);
    let (state, action) = step(state, CameraEvent::Read(Err(ReadError::NotFilled)));
    assert!(matches!(action, CameraAction::ReadStream(1)));
    let (_, action) = step(state, CameraEvent::Read(Err(ReadError::NoBuffer)));
    assert!(matches!(action, CameraAction::Requeue));
}

#[test]
fn resize_stops_configures_and_starts_the_camera() {
    let request = CameraResizeRequest { width: 800, height: 600, stride: 832, size: 748_800 };
    let command = CameraCommand::Resize(request);
    let (state, action) = step(running(), CameraEvent::Command(Some(command)));
    assert!(matches!(action, CameraAction::StopCapture));
    let (state, action) = step(state, CameraEvent::Done);
    assert!(matches!(action, CameraAction::ConfigureResized(wanted) if wanted == request));
    let (state, action) = step(state, CameraEvent::Done);
    assert!(matches!(action, CameraAction::Apply));
    let (state, action) = step(state, CameraEvent::Done);
    assert!(matches!(action, CameraAction::CreateRequests));
    let (state, action) = step(state, CameraEvent::Created(1));
    assert!(matches!(action, CameraAction::StartCapture));
    let (state, action) = step(state, CameraEvent::Done);
    assert!(matches!(action, CameraAction::QueueRequest(0)));
    let (_, action) = step(state, CameraEvent::Done);
    assert!(matches!(action, CameraAction::AwaitRequest));
}

#[test]
fn failures_of_the_camera_are_returned() {
    for state in [acquired(), running()] {
        let (state, action) = step(state, CameraEvent::Failed);
        assert!(matches!(action, CameraAction::ReturnError));
        assert!(!state.can_accept(&CameraEvent::Done));
    }
}

#[test]
fn missing_requests_and_unmapped_buffers_abort() {
    let (state, _) = step(running(), CameraEvent::Command(None));
    let (_, action) = step(state, CameraEvent::Failed);
    assert!(matches!(action, CameraAction::Abort));
    let (state, _) = step(state, CameraEvent::Completed);
    let (_, action) = step(state, CameraEvent::Failed);
    assert!(matches!(action, CameraAction::Abort));
    let (_, action) = step(camera_start().0, CameraEvent::Failed);
    assert!(matches!(action, CameraAction::Abort));
}

#[test]
fn camera_refuses_events_that_answer_nothing() {
    let state = running();
    assert!(!state.can_accept(&CameraEvent::Completed));
    assert!(!state.can_accept(&CameraEvent::Done));
    assert!(!state.can_accept(&CameraEvent::Validated(ConfigurationStatus::Valid)));
    assert!(!state.can_accept(&CameraEvent::Read(Ok(vec![]))));
}
