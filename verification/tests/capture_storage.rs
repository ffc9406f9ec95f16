use phantom::pipeline::capture::{
    BackgroundMode, CaptureConfig, CaptureError, InputTrackerConfig, PipPosition, PlatformCapture,
};
use phantom::pipeline::encoder::{mux_args, AudioCodec, Encoder, EncoderConfig, VideoCodec};
use phantom::storage::db::{fts_query, newest_first, Recording, RecordingRow, RecordingRowError};
use phantom::storage::files::{decode_tags, encode_tags, session_dir_name, FileManager};
use phantom::voice::{speech_segments, VoiceCommand};

#[test]
fn capture_defaults_and_gaming_mode() {
    let c = CaptureConfig::default();
    assert_eq!(c.fps, 30);
    assert!(c.include_cursor && !c.gaming_mode);
    let mut g = CaptureConfig::default();
    g.gaming_mode = true;
    g.fps = 24;
    let p = PlatformCapture::new(&g, 2).ok().unwrap();
    assert_eq!(p.config.fps, 60);
    let q = PlatformCapture::new(&c, 1).ok().unwrap();
    assert_eq!(q.config.fps, 30);
    assert_eq!(PlatformCapture::new(&c, 0).err(), Some(CaptureError::NoMonitors));
    let t = InputTrackerConfig::default();
    assert!(t.enabled && t.capture_mouse_position);
    assert_eq!(PipPosition::default(), PipPosition::BottomRight);
    assert!(matches!(BackgroundMode::default(), BackgroundMode::Off));
}

#[test]
fn encoder_defaults_and_mux_command() {
    let c = EncoderConfig::default();
    assert_eq!(c.video_codec, VideoCodec::H264);
    assert_eq!(c.audio_codec, AudioCodec::Aac);
    assert_eq!((c.crf, c.fps, c.width, c.height, c.hardware_accel), (18, 30, 0, 0, true));
    assert_eq!(c.mux_size(), (1920, 1080));
    let a = mux_args(&c, "a.raw", "v.raw", "out.mp4");
    let expected = [
        "-y", "-f", "f32le", "-ar", "48000", "-ac", "2", "-i", "a.raw", "-f", "rawvideo", "-pix_fmt", "bgra",
        "-s", "1920x1080", "-r", "30", "-i", "v.raw", "-c:v", "libx264", "-preset", "ultrafast", "-crf", "18",
        "-c:a", "aac", "out.mp4",
    ];
    assert_eq!(a, expected);
    let sized = EncoderConfig { width: 1280, height: 720, crf: 23, fps: 60, ..EncoderConfig::default() };
    let b = mux_args(&sized, "a", "v", "o");
    assert_eq!(b[14], "1280x720");
    assert_eq!(b[16], "60");
    assert_eq!(b[24], "23");
}

#[test]
fn encoder_counts_frames_only_while_running() {
    let mut e = Encoder::new();
    assert!(!e.accept_frame());
    assert!(!e.accept_audio());
    e.start();
    assert!(e.accept_frame());
    assert!(e.accept_frame());
    assert!(e.accept_audio());
    assert_eq!(e.finish(), 2);
    assert!(!e.accept_frame());
    assert_eq!(e.frame_count, 2);
}

#[test]
fn voice_commands() {
    assert!(matches!(VoiceCommand::parse_phrase("Hey Phantom, START recording please"), Some(VoiceCommand::StartRecording)));
    assert!(matches!(VoiceCommand::parse_phrase("stop and summarise"), Some(VoiceCommand::StopRecording)));
    match VoiceCommand::parse_phrase("Mark chapter   Intro Demo ") {
        Some(VoiceCommand::MarkChapter { name }) => assert_eq!(name.as_deref(), Some("intro demo")),
        _ => panic!("expected a chapter"),
    }
    assert!(matches!(VoiceCommand::parse_phrase("mark chapter"), Some(VoiceCommand::MarkChapter { name: None })));
    assert!(matches!(VoiceCommand::parse_phrase("bookmark this"), Some(VoiceCommand::AddBookmark)));
    assert!(matches!(VoiceCommand::parse_phrase("summarize now"), Some(VoiceCommand::SummariseNow)));
    assert!(VoiceCommand::parse_phrase("hello there").is_none());
    // The first rule that applies wins.
    assert!(matches!(VoiceCommand::parse_phrase("start recording then stop recording"), Some(VoiceCommand::StartRecording)));
}

#[test]
fn speech_is_one_segment() {
    let s = speech_segments(7);
    assert_eq!(s.len(), 1);
    assert_eq!((s[0].start_chunk, s[0].end_chunk), (0, 7));
}

#[test]
fn file_layout() {
    let f = FileManager::with_base_dir("/data/rec".to_string());
    assert_eq!(f.base_dir(), "/data/rec");
    assert_eq!(f.video_path("/data/rec/s1"), "/data/rec/s1/video.mp4");
    assert_eq!(f.audio_raw_path("/rec/s1"), "/rec/s1/audio_raw.wav");
    assert_ne!(f.audio_raw_path("/rec/s1"), f.video_path("/rec/s1"));
    assert_eq!(f.meta_path("/s"), "/s/meta.json");
    assert_eq!(f.transcript_path("/s/"), "/s/transcript.json");
    assert_eq!(f.summary_path(""), "summary.json");
    let h = FileManager::new(Some("/home/ana"));
    assert_eq!(h.base_dir(), "/home/ana/Phantom/recordings");
    assert_eq!(FileManager::new(None).base_dir(), "Phantom/recordings");
    // 2026-05-06T00:01:00Z
    let started: i128 = 1_778_025_660 * 1_000_000_000;
    assert_eq!(session_dir_name("1a2b3c4d-0000-4000-8000-000000000000", started), "2026-05-06_00-01-00_1a2b3c4d");
    assert_eq!(
        f.session_dir("1a2b3c4d-0000-4000-8000-000000000000", started),
        "/data/rec/2026-05-06_00-01-00_1a2b3c4d"
    );
    // Before the epoch: whole seconds are rounded down.
    assert_eq!(session_dir_name("abcdef01-x", -500_000_000), "1969-12-31_23-59-59_abcdef01");
}

#[test]
fn tags_round_trip() {
    let tags = vec!["demo".to_string(), "rust lang".to_string(), "x".to_string()];
    let s = encode_tags(&tags);
    assert_eq!(s, "demo,rust lang,x");
    assert_eq!(decode_tags(&s), tags);
    assert_eq!(decode_tags(",a,,b,"), vec!["a".to_string(), "b".to_string()]);
    assert!(decode_tags("").is_empty());
}

fn sample_row() -> RecordingRow {
    RecordingRow {
        id: "67E55044-10B1-426F-9247-BB680E5FE0C8".to_string(),
        title: "Demo".to_string(),
        file_path: "/r/demo.mp4".to_string(),
        thumb_path: None,
        duration_secs: 95,
        created_at: "2024-01-01T00:00:00Z".to_string(),
        tags: "a,,b".to_string(),
        share_token: Some("tok".to_string()),
        share_password_hash: None,
        share_download_enabled: 2,
        share_expires_at: Some("soon".to_string()),
        summary: Some("sum".to_string()),
    }
}

#[test]
fn recording_rows() {
    let r = Recording::from_row(sample_row()).ok().unwrap();
    assert_eq!(r.id, "67e55044-10b1-426f-9247-bb680e5fe0c8");
    assert_eq!(r.created_at, 1_704_067_200_000_000_000);
    assert_eq!(r.tags, vec!["a".to_string(), "b".to_string()]);
    assert!(r.share_download_enabled);
    assert_eq!(r.share_expires_at, None);
    assert_eq!(r.duration_secs, 95);
    let back = r.to_row();
    assert_eq!(back.id, "67e55044-10b1-426f-9247-bb680e5fe0c8");
    assert_eq!(back.created_at, "2024-01-01T00:00:00+00:00");
    assert_eq!(back.tags, "a,b");
    assert_eq!(back.share_download_enabled, 1);
    assert_eq!(back.share_expires_at, None);
    let mut bad_id = sample_row();
    bad_id.id = "nope".to_string();
    bad_id.created_at = "never".to_string();
    assert_eq!(Recording::from_row(bad_id).err(), Some(RecordingRowError::InvalidId));
    let mut bad_date = sample_row();
    bad_date.created_at = "2024-13-01T00:00:00Z".to_string();
    assert_eq!(Recording::from_row(bad_date).err(), Some(RecordingRowError::InvalidCreatedAt));
    assert_eq!(fts_query("rust"), "rust*");
}

#[test]
fn library_lists_newest_first() {
    assert_eq!(newest_first(&[10, 30, 20, 30, -5]), vec![1, 3, 2, 0, 4]);
    assert!(newest_first(&[]).is_empty());
    assert_eq!(newest_first(&[1, 1]), vec![0, 1]);
}
