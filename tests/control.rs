use camrec::control::{default_settings, recording_path, toggle_recording};
use camrec::settings::{Container, RecordCommand, Resolution, VideoEncoder};

#[test]
fn path_embeds_the_timestamp() {
    assert_eq!(recording_path(1700000000), "rec_1700000000.mov");
    assert_eq!(recording_path(0), "rec_0.mov");
    assert_ne!(recording_path(1), recording_path(2));
}

#[test]
fn default_settings_are_full_hd_h264_mov() {
    let s = default_settings(42);
    assert_eq!(s.res, Resolution { width: 1920, height: 1080 });
    assert_eq!(s.enc, VideoEncoder::H264);
    assert_eq!(s.container, Container::MOV);
    assert_eq!(s.filepath, "rec_42.mov");
}

#[test]
fn toggle_starts_when_idle() {
    let (cmd, rec) = toggle_recording(false, 99);
    assert!(rec);
    match cmd {
        RecordCommand::Start(s) => assert_eq!(s.filepath, "rec_99.mov"),
        RecordCommand::Stop => panic!("expected a start"),
    }
}

#[test]
fn toggle_stops_when_recording() {
    let (cmd, rec) = toggle_recording(true, 99);
    assert!(!rec);
    assert!(matches!(cmd, RecordCommand::Stop));
}
