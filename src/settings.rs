use vstd::prelude::*;
use vstd::string::{StrSliceExecFns, StringExecFns};

use crate::text::{decimal, push_decimal};

verus! {

/// Video codec of a recording.
#[derive(Debug, Clone, Copy, PartialEq, Eq, Structural)]
pub enum VideoEncoder {
    H264,
    H265,
}

/// File container of a recording.
#[derive(Debug, Clone, Copy, PartialEq, Eq, Structural)]
pub enum Container {
    MP4,
    MOV,
}

/// Frame size, in pixels, that a recording is scaled to.
#[derive(Debug, Clone, Copy, PartialEq, Eq, Structural)]
pub struct Resolution {
    pub width: u32,
    pub height: u32,
}

/// Everything a `Start` command needs to build a recording branch.
#[derive(Debug, Clone)]
pub struct RecordSettings {
    pub res: Resolution,
    pub enc: VideoEncoder,
    pub container: Container,
    pub filepath: String,
}

/// A command sent from the control surface to the pipeline supervisor.
#[derive(Debug, Clone)]
pub enum RecordCommand {
    Start(RecordSettings),
    Stop,
}

/// Why a set of recording settings cannot be turned into a branch.
#[derive(Debug, Clone, Copy, PartialEq, Eq, Structural)]
pub enum SettingsError {
    /// Width or height is zero.
    EmptyResolution,
    /// The output path is empty.
    EmptyPath,
    /// The output path holds a double quote or a backslash, which the
    /// quoted `location` property cannot carry.
    UnquotablePath,
}

pub open spec fn encoder_element(e: VideoEncoder) -> Seq<char> {
    match e {
        VideoEncoder::H264 => "x264enc tune=zerolatency"@,
        VideoEncoder::H265 => "x265enc tune=zerolatency"@,
    }
}

pub open spec fn muxer_element(c: Container) -> Seq<char> {
    match c {
        Container::MP4 => "mp4mux faststart=true"@,
        Container::MOV => "qtmux"@,
    }
}

pub open spec fn audio_chain(audio: bool) -> Seq<char> {
    if audio {
        "queue name=q_a ! audioconvert ! audioresample ! fdkaacenc ! aacparse ! mux.audio_0 "@
    } else {
        Seq::empty()
    }
}

/// The textual description of a recording branch: a video chain (queue,
/// conversion, scaling to the target size in I420, encoder) and, when
/// `audio`, an audio chain, both feeding the muxer, which writes the file.
pub open spec fn branch_description(s: RecordSettings, audio: bool) -> Seq<char> {
    "queue name=q_v ! videoconvert ! videoscale ! video/x-raw,width="@
        + decimal(s.res.width as nat)
        + ",height="@
        + decimal(s.res.height as nat)
        + ",format=I420 ! "@
        + encoder_element(s.enc)
        + " ! mux.video_0 "@
        + audio_chain(audio)
        + muxer_element(s.container)
        + " name=mux ! filesink location=\""@
        + s.filepath@
        + "\""@
}

pub open spec fn quotable(path: Seq<char>) -> bool {
    forall|i: int| 0 <= i < path.len() ==> path[i] != '"' && path[i] != '\\'
}

/// The error that `describe_branch` reports for `s`, if any.
pub open spec fn settings_error(s: RecordSettings) -> Option<SettingsError> {
    if s.res.width == 0 || s.res.height == 0 {
        Some(SettingsError::EmptyResolution)
    } else if s.filepath@.len() == 0 {
        Some(SettingsError::EmptyPath)
    } else if !quotable(s.filepath@) {
        Some(SettingsError::UnquotablePath)
    } else {
        None
    }
}

fn encoder_str(e: VideoEncoder) -> (r: &'static str)
    ensures
        r@ == encoder_element(e),
{
    match e {
        VideoEncoder::H264 => "x264enc tune=zerolatency",
        VideoEncoder::H265 => "x265enc tune=zerolatency",
    }
}

fn muxer_str(c: Container) -> (r: &'static str)
    ensures
        r@ == muxer_element(c),
{
    match c {
        Container::MP4 => "mp4mux faststart=true",
        Container::MOV => "qtmux",
    }
}

/// Whether `path` can stand between double quotes unescaped.
pub fn is_quotable(path: &str) -> (r: bool)
    ensures
        r == quotable(path@),
{
    let n = path.unicode_len();
    let mut i: usize = 0;
    while i < n
        invariant
            n == path@.len(),
            i <= n,
            forall|j: int| 0 <= j < i ==> path@[j] != '"' && path@[j] != '\\',
        decreases n - i,
    {
        let c = path.get_char(i);
        if c == '"' || c == '\\' {
            return false;
        }
        i = i + 1;
    }
    true
}

/// Checks `settings`: `None` when a branch can be built from them.
pub fn check_settings(settings: &RecordSettings) -> (r: Option<SettingsError>)
    ensures
        r == settings_error(*settings),
{
    if settings.res.width == 0 || settings.res.height == 0 {
        Some(SettingsError::EmptyResolution)
    } else if settings.filepath.as_str().unicode_len() == 0 {
        Some(SettingsError::EmptyPath)
    } else if !is_quotable(settings.filepath.as_str()) {
        Some(SettingsError::UnquotablePath)
    } else {
        None
    }
}

/// Builds the description of the recording branch for `settings`, with an
/// audio chain when `audio`.
pub fn describe_branch(settings: &RecordSettings, audio: bool) -> (r: Result<String, SettingsError>)
    ensures
        settings_error(*settings) is Some <==> r is Err,
        r is Err ==> Some(r->Err_0) == settings_error(*settings),
        r is Ok ==> r->Ok_0@ == branch_description(*settings, audio),
{
    match check_settings(settings) {
        Some(e) => Err(e),
        None => {
            let mut s = String::new();
            s.append("queue name=q_v ! videoconvert ! videoscale ! video/x-raw,width=");
            push_decimal(&mut s, settings.res.width as u64);
            s.append(",height=");
            push_decimal(&mut s, settings.res.height as u64);
            s.append(",format=I420 ! ");
            s.append(encoder_str(settings.enc));
            s.append(" ! mux.video_0 ");
            if audio {
                s.append("queue name=q_a ! audioconvert ! audioresample ! fdkaacenc ! aacparse ! mux.audio_0 ");
            }
            s.append(muxer_str(settings.container));
            s.append(" name=mux ! filesink location=\"");
            s.append(settings.filepath.as_str());
            s.append("\"");
            assert(s@ =~= branch_description(*settings, audio));
            Ok(s)
        }
    }
}

} // verus!
