//! What holds of the server as a whole, from a client's command to its effect.

use crate::camera::StreamSettings;
use crate::camera_loop::{CameraAction, CameraEvent};
use crate::command::{
    CameraCommand, CameraResizeRequest, ClientCommands, EncoderCommand, H264Level, H264Profile,
};
use crate::encoder::{CommandPoll, EncoderAction, EncoderEvent};
use crate::format::Size;
use vstd::prelude::*;

verus! {

/// The encoder queues one frame for each frame that a client asks for, on top of
/// those that the rest of its commands ask for, however the commands of the
/// client and the rest are mixed.
pub proof fn law_frames_queued_as_wanted(
    events: Seq<EncoderEvent>,
    commands: Seq<ClientCommands>,
    rest: Seq<EncoderCommand>,
)
    requires
        crate::encoder::encoder_admits(events),
        crate::encoder::commands_taken(events).to_multiset() == crate::command::commands_for_all(
            commands,
        ).to_multiset().add(rest.to_multiset()),
    ensures
        crate::encoder::frames_queued(events).len() == crate::command::frames_wanted(commands)
            + crate::command::frames_asked(rest),
{
    crate::encoder::law_one_frame_per_request(events);
    crate::command::law_frames_asked_as_wanted(commands);
    crate::command::lemma_frames_asked_counts(crate::encoder::commands_taken(events));
    crate::command::lemma_frames_asked_counts(crate::command::commands_for_all(commands));
    crate::command::lemma_frames_asked_counts(rest);
}

/// A resize ends in the camera. The encoder loop announces it after it has created
/// an encoder for the size that was asked for. Once the camera loop has found that
/// announcement and stopped capturing, it configures the variable stream as the
/// announcement says: for raw images of the size that was asked for, with the line
/// length of that encoder.
pub proof fn law_resize_reaches_camera(
    events: Seq<EncoderEvent>,
    camera_events: Seq<CameraEvent>,
    request: CameraResizeRequest,
    settings: StreamSettings,
)
    requires
        crate::encoder::encoder_admits(events),
        crate::encoder::encoder_after(events).1 == EncoderAction::NotifyCamera(request),
        crate::camera_loop::camera_admits(camera_events),
        camera_events.len() >= 2,
        camera_events[camera_events.len() - 2] == CameraEvent::Command(
            Some(CameraCommand::Resize(request)),
        ),
        camera_events.last() is Done,
    ensures
        crate::camera_loop::camera_after(camera_events).1 == CameraAction::ConfigureResized(
            request,
        ),
        events.len() >= 4,
        crate::encoder::resize_asked(events[events.len() - 4]) matches Some(size)
            && events[events.len() - 2] matches EncoderEvent::Created(planes)
            && crate::camera::configured(
            settings,
            request.width,
            request.height,
            Some(request.stride),
        ) == (StreamSettings {
            pixel_format: crate::format::raw_pixel_format(),
            size,
            stride: planes@[0].bytesperline,
        }),
{
    crate::encoder::law_camera_follows_encoder(events, request);
    crate::camera_loop::law_resize_on_command_only(camera_events, request);
}

/// What a client chooses is what the encoder is set to, when the encoder loop takes the
/// client's command: the same bitrate, and the main or the high profile if and only if
/// the client names it.
pub proof fn law_client_settings_reach_encoder(
    events: Seq<EncoderEvent>,
    command: ClientCommands,
    bitrate: i32,
)
    requires
        crate::encoder::encoder_admits(events),
        events.len() > 0,
        events.last() == EncoderEvent::Polled(
            CommandPoll::Command(crate::command::commands_for(command)[0]),
        ),
    ensures
        ({
            let next = crate::encoder::encoder_after(events).1;
            &&& next == EncoderAction::SetBitrate(bitrate) <==> command
                == ClientCommands::SetBitrate(bitrate)
            &&& command matches ClientCommands::SetProfile(name) ==> {
                &&& next == EncoderAction::SetProfile(H264Profile::Main) <==> name@ == "main"@
                &&& next == EncoderAction::SetProfile(H264Profile::High) <==> name@ == "high"@
                &&& next == EncoderAction::SetProfile(H264Profile::Baseline) <==> name@ != "main"@
                    && name@ != "high"@
            }
        }),
{
    crate::encoder::law_settings_reach_encoder(
        events,
        bitrate,
        H264Level::L4_2,
        H264Profile::Main,
    );
    crate::encoder::law_settings_reach_encoder(
        events,
        bitrate,
        H264Level::L4_2,
        H264Profile::High,
    );
    crate::encoder::law_settings_reach_encoder(
        events,
        bitrate,
        H264Level::L4_2,
        H264Profile::Baseline,
    );
    crate::command::law_client_command_passed_on(command, Size { width: 0, height: 0 }, bitrate);
    if let ClientCommands::SetProfile(name) = command {
        crate::command::law_client_profile_passed_on(command, name);
    }
}

} // verus!
