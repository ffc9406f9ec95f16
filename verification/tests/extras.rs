use phantom::ai::auto_edit::{open_silence_start, silence_cuts, timeline_order, EditKind};
use phantom::ai::search::{embed_model_name, embed_url, embedding_snippet, embedding_text};
use phantom::ai::transcription::{
    convert_args, cpp_transcript, no_backend_message, python_binary, python_transcript, python_whisper_args,
    whisper_binary, whisper_cpp_args, WHISPER_BINARY_COUNT,
};
use phantom::ai::types::ActionItem;
use phantom::billing::entitlement::{
    format_instant, parse_instant, within_chrono_range, CHRONO_MAX_INSTANT, CHRONO_MIN_INSTANT,
};
use phantom::storage::db::{Recording, RecordingRow};
use phantom::uplink::supabase::{parse_credentials, session_object_path};

fn flags(pattern: &str) -> Vec<bool> {
    pattern.chars().map(|c| c == '_').collect()
}

#[test]
fn silence_runs_become_cuts() {
    // 50 ms per chunk: 40 silent chunks are exactly two seconds, which is not
    // longer than the minimum; 41 are.
    let mut s = flags("#");
    s.extend(flags(&"_".repeat(41)));
    s.extend(flags("#"));
    s.extend(flags(&"_".repeat(40)));
    s.extend(flags("#"));
    let cuts = silence_cuts(&s, 10_000);
    assert_eq!(cuts.len(), 1);
    assert_eq!(cuts[0].kind, EditKind::SilenceCut);
    assert_eq!((cuts[0].start_ms, cuts[0].end_ms), (50, 2100));
    assert_eq!(cuts[0].reason, "2050ms of silence detected");
    let exact: Vec<bool> = flags(&"_".repeat(40));
    assert!(silence_cuts(&exact, 2000).is_empty());
    assert_eq!(silence_cuts(&exact, 2050).len(), 1);
}

#[test]
fn trailing_silence_runs_to_the_end() {
    let mut s = flags("##");
    s.extend(flags(&"_".repeat(10)));
    assert_eq!(open_silence_start(&s), Some(2));
    let cuts = silence_cuts(&s, 3000);
    assert_eq!(cuts.len(), 1);
    assert_eq!((cuts[0].start_ms, cuts[0].end_ms), (100, 3000));
    assert_eq!(cuts[0].reason, "2900ms of trailing silence");
    assert!(silence_cuts(&s, 1000).is_empty());
    assert_eq!(open_silence_start(&flags("__#")), None);
    assert!(silence_cuts(&[], 0).is_empty());
}

#[test]
fn whisper_command_lines() {
    assert_eq!(
        convert_args("in.mp4", "/tmp/w.wav"),
        vec!["-y", "-i", "in.mp4", "-ar", "16000", "-ac", "1", "-f", "wav", "/tmp/w.wav"]
    );
    assert_eq!(
        whisper_cpp_args("m.bin", "a.wav"),
        vec!["-m", "m.bin", "-f", "a.wav", "--output-txt", "--no-prints", "--no-timestamps"]
    );
    assert_eq!(
        python_whisper_args("a.wav", "/tmp"),
        vec!["-m", "whisper", "a.wav", "--model", "base.en", "--output_format", "txt", "--output_dir", "/tmp", "--fp16", "False"]
    );
    let names: Vec<&str> = (0..WHISPER_BINARY_COUNT).map(whisper_binary).collect();
    assert_eq!(names, vec!["whisper-cli", "whisper-cpp", "main"]);
    assert_eq!((python_binary(0), python_binary(1)), ("python", "python3"));
}

#[test]
fn whisper_outputs() {
    assert_eq!(cpp_transcript("  hello world \n", Some("ignored")).as_deref(), Some("hello world"));
    assert_eq!(cpp_transcript(" \n", Some("  from file\n")).as_deref(), Some("from file"));
    assert_eq!(cpp_transcript("", Some("   ")), None);
    assert_eq!(cpp_transcript("", None), None);
    assert_eq!(python_transcript(Some("\ttext\n")).as_deref(), Some("text"));
    assert_eq!(python_transcript(Some("")), None);
    assert_eq!(python_transcript(None), None);
    let m = no_backend_message("/data/models");
    assert!(m.starts_with("No Whisper backend found."));
    assert!(m.contains("3. Model auto-downloads to: /data/models\n\nOption B"));
}

#[test]
fn embedding_inputs() {
    assert_eq!(embedding_text("Demo", "we ship"), "Title: Demo\n\nTranscript: we ship");
    let long = "é".repeat(250);
    assert_eq!(embedding_snippet(&long).chars().count(), 200);
    assert_eq!(embedding_snippet("short"), "short");
    assert_eq!(
        embed_url("K"),
        "https://generativelanguage.googleapis.com/v1beta/models/text-embedding-004:embedContent?key=K"
    );
    assert_eq!(embed_model_name(), "models/text-embedding-004");
}

#[test]
fn cli_helpers() {
    assert_eq!(parse_credentials("a@b.c:pw"), Some(("a@b.c".to_string(), "pw".to_string())));
    assert_eq!(parse_credentials(":"), Some((String::new(), String::new())));
    assert_eq!(parse_credentials("a:b:c"), None);
    assert_eq!(parse_credentials("nocolon"), None);
    assert_eq!(session_object_path("abc"), "sessions/abc/video.mp4");
    let a = ActionItem { text: "Ship it".to_string(), owner: None };
    assert_eq!(a.summary_line(), "- Ship it (Owner: Unassigned)");
    let b = ActionItem { text: "Review".to_string(), owner: Some("Ana".to_string()) };
    assert_eq!(b.summary_line(), "- Review (Owner: Ana)");
}

#[test]
fn instants_round_trip_through_text() {
    for x in [0i128, 1, -1, 1_704_067_200_123_456_789, 253_402_300_799_999_999_999, -62_167_219_200_000_000_000] {
        let t = format_instant(x).unwrap();
        assert_eq!(parse_instant(&t), Some(x));
    }
    assert!(within_chrono_range(CHRONO_MAX_INSTANT) && within_chrono_range(CHRONO_MIN_INSTANT));
    assert!(!within_chrono_range(CHRONO_MAX_INSTANT + 1));
}

#[test]
fn recording_round_trip() {
    let r = Recording {
        id: "67e55044-10b1-426f-9247-bb680e5fe0c8".to_string(),
        title: "Demo".to_string(),
        file_path: "/r/demo.mp4".to_string(),
        thumb_path: Some("/r/t.png".to_string()),
        duration_secs: u64::MAX,
        created_at: 1_704_067_200_500_000_000,
        tags: vec!["a".to_string(), "b c".to_string()],
        share_token: None,
        share_password_hash: Some("h".to_string()),
        share_download_enabled: false,
        share_expires_at: Some(1_704_153_600_000_000_000),
        summary: None,
    };
    let row: RecordingRow = r.to_row();
    assert_eq!(row.duration_secs, -1);
    let back = Recording::from_row(row).ok().unwrap();
    assert_eq!(back.id, r.id);
    assert_eq!(back.created_at, r.created_at);
    assert_eq!(back.tags, r.tags);
    assert_eq!(back.duration_secs, u64::MAX);
    assert_eq!(back.share_expires_at, r.share_expires_at);
    assert_eq!(back.share_download_enabled, r.share_download_enabled);
    assert_eq!(back.thumb_path, r.thumb_path);
    assert_eq!(back.share_password_hash, r.share_password_hash);
}

#[test]
fn timeline_order_is_stable_by_start() {
    assert_eq!(timeline_order(&[500, 100, 500, 0, 100]), vec![3, 1, 4, 0, 2]);
    assert!(timeline_order(&[]).is_empty());
    assert_eq!(timeline_order(&[7, 7, 7]), vec![0, 1, 2]);
}

#[test]
fn silence_cuts_are_in_order() {
    let mut s = flags(&"_".repeat(45));
    s.extend(flags("#"));
    s.extend(flags(&"_".repeat(50)));
    s.extend(flags("#"));
    s.extend(flags(&"_".repeat(60)));
    let cuts = silence_cuts(&s, 8_000);
    assert_eq!(cuts.len(), 3);
    for w in cuts.windows(2) {
        assert!(w[0].end_ms <= w[1].start_ms);
    }
}
