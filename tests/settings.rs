use camrec::settings::{
    check_settings, describe_branch, is_quotable, Container, RecordSettings, Resolution,
    SettingsError, VideoEncoder,
};

fn settings(w: u32, h: u32, enc: VideoEncoder, container: Container, path: &str) -> RecordSettings {
    RecordSettings {
        res: Resolution { width: w, height: h },
        enc,
        container,
        filepath: path.to_string(),
    }
}

#[test]
fn full_hd_h264_mov_branch() {
    let s = settings(1920, 1080, VideoEncoder::H264, Container::MOV, "a.mov");
    let d = describe_branch(&s, false).unwrap();
    assert_eq!(
        d,
        "queue name=q_v ! videoconvert ! videoscale ! video/x-raw,width=1920,height=1080,format=I420 ! \
         x264enc tune=zerolatency ! mux.video_0 qtmux name=mux ! filesink location=\"a.mov\""
    );
}

#[test]
fn h265_mp4_branch_with_audio() {
    let s = settings(1280, 720, VideoEncoder::H265, Container::MP4, "/tmp/out file.mp4");
    let d = describe_branch(&s, true).unwrap();
    assert_eq!(
        d,
        "queue name=q_v ! videoconvert ! videoscale ! video/x-raw,width=1280,height=720,format=I420 ! \
         x265enc tune=zerolatency ! mux.video_0 queue name=q_a ! audioconvert ! audioresample ! \
         fdkaacenc ! aacparse ! mux.audio_0 mp4mux faststart=true name=mux ! filesink location=\"/tmp/out file.mp4\""
    );
}

#[test]
fn mp4_uses_faststart_and_mov_uses_qtmux() {
    let mp4 = describe_branch(&settings(640, 480, VideoEncoder::H264, Container::MP4, "x.mp4"), false).unwrap();
    let mov = describe_branch(&settings(640, 480, VideoEncoder::H264, Container::MOV, "x.mov"), false).unwrap();
    assert!(mp4.contains("mp4mux faststart=true name=mux"));
    assert!(!mp4.contains("qtmux"));
    assert!(mov.contains("qtmux name=mux"));
    assert!(!mov.contains("mp4mux"));
}

#[test]
fn zero_width_is_rejected() {
    let s = settings(0, 1080, VideoEncoder::H264, Container::MOV, "a.mov");
    assert_eq!(describe_branch(&s, false), Err(SettingsError::EmptyResolution));
    assert_eq!(check_settings(&s), Some(SettingsError::EmptyResolution));
}

#[test]
fn zero_height_is_rejected() {
    let s = settings(1920, 0, VideoEncoder::H264, Container::MOV, "");
    assert_eq!(describe_branch(&s, true), Err(SettingsError::EmptyResolution));
}

#[test]
fn empty_path_is_rejected() {
    let s = settings(1920, 1080, VideoEncoder::H265, Container::MP4, "");
    assert_eq!(describe_branch(&s, false), Err(SettingsError::EmptyPath));
}

#[test]
fn quote_in_path_is_rejected() {
    let s = settings(1920, 1080, VideoEncoder::H264, Container::MOV, "a\"b.mov");
    assert_eq!(describe_branch(&s, false), Err(SettingsError::UnquotablePath));
    let s = settings(1920, 1080, VideoEncoder::H264, Container::MOV, "dir\\a.mov");
    assert_eq!(describe_branch(&s, false), Err(SettingsError::UnquotablePath));
}

#[test]
fn valid_settings_pass_the_check() {
    let s = settings(1, 1, VideoEncoder::H264, Container::MOV, "é.mov");
    assert_eq!(check_settings(&s), None);
    assert!(is_quotable("plain/path.mov"));
    assert!(is_quotable(""));
    assert!(!is_quotable("\""));
}

#[test]
fn largest_resolution_is_written_in_full() {
    let s = settings(u32::MAX, u32::MAX, VideoEncoder::H264, Container::MOV, "big.mov");
    let d = describe_branch(&s, false).unwrap();
    assert!(d.contains("width=4294967295,height=4294967295,format=I420"));
}
