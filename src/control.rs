use vstd::prelude::*;
use vstd::string::StringExecFns;

use crate::settings::{Container, RecordCommand, RecordSettings, Resolution, VideoEncoder};
use crate::text::{decimal, push_decimal};

verus! {

/// The file name of a recording started at `timestamp` seconds.
pub open spec fn recording_name(timestamp: u64) -> Seq<char> {
    "rec_"@ + decimal(timestamp as nat) + ".mov"@
}

/// The settings of a recording started from the control surface at
/// `timestamp`: full HD, H.264, QuickTime container.
pub open spec fn is_default_settings(s: RecordSettings, timestamp: u64) -> bool {
    s.res == (Resolution { width: 1920, height: 1080 }) && s.enc == VideoEncoder::H264
        && s.container == Container::MOV && s.filepath@ == recording_name(timestamp)
}

/// The output path for a recording started at `timestamp` seconds; distinct
/// start times give distinct names.
pub fn recording_path(timestamp: u64) -> (r: String)
    ensures
        r@ == recording_name(timestamp),
{
    let mut s = String::new();
    s.append("rec_");
    push_decimal(&mut s, timestamp);
    s.append(".mov");
    assert(s@ =~= recording_name(timestamp));
    s
}

/// The settings that the record toggle starts a recording with.
pub fn default_settings(timestamp: u64) -> (r: RecordSettings)
    ensures
        is_default_settings(r, timestamp),
{
    RecordSettings {
        res: Resolution { width: 1920, height: 1080 },
        enc: VideoEncoder::H264,
        container: Container::MOV,
        filepath: recording_path(timestamp),
    }
}

/// The command that the record toggle sends, and whether the control surface
/// shows a recording afterwards: a `Stop` when it showed one, else a `Start`
/// with the default settings for `timestamp`.
pub fn toggle_recording(is_recording: bool, timestamp: u64) -> (r: (RecordCommand, bool))
    ensures
        r.1 == !is_recording,
        is_recording ==> r.0 is Stop,
        !is_recording ==> r.0 is Start && is_default_settings(r.0->Start_0, timestamp),
{
    if is_recording {
        (RecordCommand::Stop, false)
    } else {
        (RecordCommand::Start(default_settings(timestamp)), true)
    }
}

} // verus!
