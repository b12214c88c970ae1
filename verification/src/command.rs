//! The commands that clients, encoder and camera exchange.

use crate::format::Size;
use vstd::prelude::*;

verus! {

/// The H.264 profiles that a client can choose.
#[derive(Debug, Clone, Copy, PartialEq, Eq, Structural)]
pub enum H264Profile {
    Baseline,
    Main,
    High,
}

/// The H.264 levels that a client can choose.
#[derive(Debug, Clone, Copy, PartialEq, Eq, Structural)]
pub enum H264Level {
    L1_1,
    L2_1,
    L2_2,
    L3_1,
    L3_2,
    L4_0,
    L4_1,
    L4_2,
}

/// A new image layout for the camera's variable stream.
#[derive(Debug, Clone, Copy, PartialEq, Eq, Structural)]
pub struct CameraResizeRequest {
    pub width: u32,
    pub height: u32,
    /// Bytes per line that the encoder expects.
    pub stride: u32,
    /// Bytes per image that the encoder expects.
    pub size: u32,
}

/// What the camera's command channel holds.
#[derive(Debug, Clone, Copy, PartialEq, Eq, Structural)]
pub enum CameraCommand {
    Resize(CameraResizeRequest),
    Empty,
}

/// What the variable encoder can be told.
#[derive(Debug, Clone, Copy, PartialEq, Eq, Structural)]
pub enum EncoderCommand {
    NextFrame,
    RestartEncoder,
    Resize(Size),
    SetBitrate(i32),
    SetLevel(H264Level),
    SetProfile(H264Profile),
}

/// What a client can ask for.
#[derive(Debug)]
pub enum ClientCommands {
    RestartEncoder,
    Resize(Size),
    SetBitrate(i32),
    SetLevel(String),
    SetProfile(String),
    NextFrame,
}

/// The profile that a name stands for; an unknown name stands for the baseline profile.
pub open spec fn profile_named(name: Seq<char>) -> H264Profile {
    if name == "main"@ {
        H264Profile::Main
    } else if name == "high"@ {
        H264Profile::High
    } else {
        H264Profile::Baseline
    }
}

/// The level that a name stands for; an unknown name stands for level 4.2.
pub open spec fn level_named(name: Seq<char>) -> H264Level {
    if name == "11"@ {
        H264Level::L1_1
    } else if name == "21"@ {
        H264Level::L2_1
    } else if name == "22"@ {
        H264Level::L2_2
    } else if name == "3"@ {
        H264Level::L3_1
    } else if name == "32"@ {
        H264Level::L3_2
    } else if name == "4"@ {
        H264Level::L4_0
    } else if name == "41"@ {
        H264Level::L4_1
    } else {
        H264Level::L4_2
    }
}

/// Compares a name with a text.
fn is_named(name: &String, text: &str) -> (result: bool)
    ensures
        result == (name@ == text@),
{
    *name == text.to_owned()
}

/// Looks up an H.264 profile by the name that clients use.
pub fn profile_from_name(name: &String) -> (profile: H264Profile)
    ensures
        profile == profile_named(name@),
{
    if is_named(name, "main") {
        H264Profile::Main
    } else if is_named(name, "high") {
        H264Profile::High
    } else {
        H264Profile::Baseline
    }
}

/// Looks up an H.264 level by the name that clients use.
pub fn level_from_name(name: &String) -> (level: H264Level)
    ensures
        level == level_named(name@),
{
    if is_named(name, "11") {
        H264Level::L1_1
    } else if is_named(name, "21") {
        H264Level::L2_1
    } else if is_named(name, "22") {
        H264Level::L2_2
    } else if is_named(name, "3") {
        H264Level::L3_1
    } else if is_named(name, "32") {
        H264Level::L3_2
    } else if is_named(name, "4") {
        H264Level::L4_0
    } else if is_named(name, "41") {
        H264Level::L4_1
    } else {
        H264Level::L4_2
    }
}

/// The encoder commands that carry out one client command, in order.
pub open spec fn commands_for(command: ClientCommands) -> Seq<EncoderCommand> {
    match command {
        ClientCommands::Resize(size) => seq![
            EncoderCommand::Resize(size),
            EncoderCommand::RestartEncoder,
        ],
        ClientCommands::SetBitrate(bitrate) => seq![EncoderCommand::SetBitrate(bitrate)],
        ClientCommands::SetProfile(name) => seq![EncoderCommand::SetProfile(profile_named(name@))],
        ClientCommands::SetLevel(name) => seq![EncoderCommand::SetLevel(level_named(name@))],
        ClientCommands::RestartEncoder => seq![EncoderCommand::RestartEncoder],
        ClientCommands::NextFrame => seq![EncoderCommand::NextFrame],
    }
}

/// The encoder commands that carry out a client's commands, in order.
pub open spec fn commands_for_all(commands: Seq<ClientCommands>) -> Seq<EncoderCommand>
    decreases commands.len(),
{
    if commands.len() == 0 {
        Seq::empty()
    } else {
        commands_for_all(commands.drop_last()) + commands_for(commands.last())
    }
}

/// Translates one client command for the encoder.
pub fn encoder_commands(command: ClientCommands) -> (result: Vec<EncoderCommand>)
    ensures
        result@ == commands_for(command),
{
    let mut result: Vec<EncoderCommand> = Vec::new();
    match command {
        ClientCommands::Resize(size) => {
            result.push(EncoderCommand::Resize(size));
            result.push(EncoderCommand::RestartEncoder);
        },
        ClientCommands::SetBitrate(bitrate) => result.push(EncoderCommand::SetBitrate(bitrate)),
        ClientCommands::SetProfile(name) => {
            result.push(EncoderCommand::SetProfile(profile_from_name(&name)))
        },
        ClientCommands::SetLevel(name) => {
            result.push(EncoderCommand::SetLevel(level_from_name(&name)))
        },
        ClientCommands::RestartEncoder => result.push(EncoderCommand::RestartEncoder),
        ClientCommands::NextFrame => result.push(EncoderCommand::NextFrame),
    }
    result
}

/// How many of the encoder commands ask for a frame.
pub open spec fn frames_asked(commands: Seq<EncoderCommand>) -> nat
    decreases commands.len(),
{
    if commands.len() == 0 {
        0
    } else {
        frames_asked(commands.drop_last()) + if commands.last() is NextFrame {
            1nat
        } else {
            0nat
        }
    }
}

/// How many of the client commands ask for a frame.
pub open spec fn frames_wanted(commands: Seq<ClientCommands>) -> nat
    decreases commands.len(),
{
    if commands.len() == 0 {
        0
    } else {
        frames_wanted(commands.drop_last()) + if commands.last() is NextFrame {
            1nat
        } else {
            0nat
        }
    }
}

proof fn lemma_frames_asked_push(commands: Seq<EncoderCommand>, command: EncoderCommand)
    ensures
        frames_asked(commands.push(command)) == frames_asked(commands) + if command is NextFrame {
            1nat
        } else {
            0nat
        },
{
    assert(commands.push(command).drop_last() =~= commands);
}

/// A client's commands ask the encoder for exactly as many frames as the client did.
pub proof fn law_frames_asked_as_wanted(commands: Seq<ClientCommands>)
    ensures
        frames_asked(commands_for_all(commands)) == frames_wanted(commands),
    decreases commands.len(),
{
    if commands.len() > 0 {
        law_frames_asked_as_wanted(commands.drop_last());
        let before = commands_for_all(commands.drop_last());
        let added = commands_for(commands.last());
        lemma_frames_asked_push(before, added[0]);
        if added.len() == 1 {
            assert(before + added =~= before.push(added[0]));
        } else {
            lemma_frames_asked_push(before.push(added[0]), added[1]);
            assert(before + added =~= before.push(added[0]).push(added[1]));
        }
    }
}

/// Every resize that a client causes is followed at once by a restart of the encoder.
pub proof fn law_resize_followed_by_restart(commands: Seq<ClientCommands>, i: int)
    requires
        0 <= i < commands_for_all(commands).len(),
        commands_for_all(commands)[i] is Resize,
    ensures
        i + 1 < commands_for_all(commands).len(),
        commands_for_all(commands)[i + 1] is RestartEncoder,
    decreases commands.len(),
{
    if i < commands_for_all(commands.drop_last()).len() {
        law_resize_followed_by_restart(commands.drop_last(), i);
    }
}

/// No client command is lost: each of them gives the encoder at least one
/// command, and only a resize gives it two.
pub proof fn law_no_command_lost(commands: Seq<ClientCommands>)
    ensures
        commands_for_all(commands).len() == commands.len() + commands.filter(
            |command: ClientCommands| command is Resize,
        ).len(),
    decreases commands.len(),
{
    reveal(Seq::filter);
    if commands.len() > 0 {
        law_no_command_lost(commands.drop_last());
    }
}

/// A client's commands are carried out in order: those that came first give the
/// encoder its first commands.
pub proof fn law_commands_stay_in_order(first: Seq<ClientCommands>, later: Seq<ClientCommands>)
    ensures
        commands_for_all(first + later) == commands_for_all(first) + commands_for_all(later),
    decreases later.len(),
{
    if later.len() == 0 {
        assert(first + later =~= first);
    } else {
        law_commands_stay_in_order(first, later.drop_last());
        assert((first + later).drop_last() =~= first + later.drop_last());
    }
}

/// The number of commands that ask for a frame does not depend on their order.
pub(crate) proof fn lemma_frames_asked_counts(commands: Seq<EncoderCommand>)
    ensures
        frames_asked(commands) == commands.to_multiset().count(EncoderCommand::NextFrame),
    decreases commands.len(),
{
    broadcast use vstd::seq_lib::group_to_multiset_ensures;

    if commands.len() > 0 {
        lemma_frames_asked_counts(commands.drop_last());
        assert(commands =~= commands.drop_last().push(commands.last()));
    }
}

/// The main and the high profile are chosen by their own names and by no others. Any
/// other name, known or not, chooses the baseline profile.
pub proof fn law_profile_chosen_by_name(name: Seq<char>)
    ensures
        profile_named(name) is Main <==> name == "main"@,
        profile_named(name) is High <==> name == "high"@,
        profile_named(name) is Baseline <==> name != "main"@ && name != "high"@,
        profile_named("baseline"@) is Baseline,
{
    reveal_strlit("main");
    reveal_strlit("high");
    reveal_strlit("baseline");
    assert("main"@[0] != "high"@[0]);
    assert("baseline"@.len() != "main"@.len());
    assert("baseline"@.len() != "high"@.len());
}

/// Each level but 4.2 is chosen by one name and by no other. Any other name, known or
/// not, chooses level 4.2.
pub proof fn law_level_chosen_by_name(name: Seq<char>)
    ensures
        level_named(name) is L1_1 <==> name == "11"@,
        level_named(name) is L2_1 <==> name == "21"@,
        level_named(name) is L2_2 <==> name == "22"@,
        level_named(name) is L3_1 <==> name == "3"@,
        level_named(name) is L3_2 <==> name == "32"@,
        level_named(name) is L4_0 <==> name == "4"@,
        level_named(name) is L4_1 <==> name == "41"@,
        level_named(name) is L4_2 <==> name != "11"@ && name != "21"@ && name != "22"@ && name
            != "3"@ && name != "32"@ && name != "4"@ && name != "41"@,
{
    reveal_strlit("11");
    reveal_strlit("21");
    reveal_strlit("22");
    reveal_strlit("3");
    reveal_strlit("32");
    reveal_strlit("4");
    reveal_strlit("41");
    assert("11"@[0] == '1' && "21"@[0] == '2' && "22"@[0] == '2' && "32"@[0] == '3' && "41"@[0]
        == '4');
    assert("21"@[1] == '1' && "22"@[1] == '2');
    assert("3"@[0] == '3' && "4"@[0] == '4');
    assert("3"@.len() == 1 && "4"@.len() == 1);
}

/// The encoder is told what the client asks for: the same command first, with the same
/// value, where a profile or a level is the one that its name chooses. Only a resize
/// is followed by another command, to restart the encoder.
pub proof fn law_client_command_passed_on(command: ClientCommands, size: Size, bitrate: i32)
    ensures
        ({
            let told = commands_for(command);
            &&& told.len() == if command is Resize {
                2nat
            } else {
                1nat
            }
            &&& told[0] == EncoderCommand::Resize(size) <==> command == ClientCommands::Resize(size)
            &&& told[0] == EncoderCommand::SetBitrate(bitrate) <==> command
                == ClientCommands::SetBitrate(bitrate)
            &&& told[0] is RestartEncoder <==> command is RestartEncoder
            &&& told[0] is NextFrame <==> command is NextFrame
            &&& told[0] is SetProfile <==> command is SetProfile
            &&& told[0] is SetLevel <==> command is SetLevel
            &&& command is Resize ==> told[1] is RestartEncoder
        }),
{
}

/// The profile that the encoder is told is the main or the high one if and only if
/// the client names it.
pub proof fn law_client_profile_passed_on(command: ClientCommands, name: String)
    requires
        command == ClientCommands::SetProfile(name),
    ensures
        commands_for(command)[0] == EncoderCommand::SetProfile(H264Profile::Main) <==> name@
            == "main"@,
        commands_for(command)[0] == EncoderCommand::SetProfile(H264Profile::High) <==> name@
            == "high"@,
        commands_for(command)[0] == EncoderCommand::SetProfile(H264Profile::Baseline) <==> name@
            != "main"@ && name@ != "high"@,
{
    law_profile_chosen_by_name(name@);
}

/// The level that the encoder is told is the one that the client names.
pub proof fn law_client_level_passed_on(command: ClientCommands, name: String)
    requires
        command == ClientCommands::SetLevel(name),
    ensures
        commands_for(command)[0] == EncoderCommand::SetLevel(H264Level::L1_1) <==> name@ == "11"@,
        commands_for(command)[0] == EncoderCommand::SetLevel(H264Level::L2_1) <==> name@ == "21"@,
        commands_for(command)[0] == EncoderCommand::SetLevel(H264Level::L2_2) <==> name@ == "22"@,
        commands_for(command)[0] == EncoderCommand::SetLevel(H264Level::L3_1) <==> name@ == "3"@,
        commands_for(command)[0] == EncoderCommand::SetLevel(H264Level::L3_2) <==> name@ == "32"@,
        commands_for(command)[0] == EncoderCommand::SetLevel(H264Level::L4_0) <==> name@ == "4"@,
        commands_for(command)[0] == EncoderCommand::SetLevel(H264Level::L4_1) <==> name@ == "41"@,
        commands_for(command)[0] == EncoderCommand::SetLevel(H264Level::L4_2) <==> name@ != "11"@
            && name@ != "21"@ && name@ != "22"@ && name@ != "3"@ && name@ != "32"@ && name@ != "4"@
            && name@ != "41"@,
{
    law_level_chosen_by_name(name@);
}

} // verus!
