use phantom::ai::types::{ActionItem, Chapter, CodeSnippet, OcrResult, RecordingSummary};
use phantom::ui::ai_panel::{
    can_run_summary, free_uses_notice, local_summary, ocr_report, pro_lock_message, search_lines, summary_report,
};
use phantom::ui::state::AiTab;
use phantom::ai::auto_edit::EditKind;
use phantom::billing::tier::Tier;
use phantom::ui::export::{export_args, filter_complex, gif_filter, VideoPlayer};
use phantom::ui::overlay::{OverlayState, QuickAction, RecordToggle};
use phantom::ui::preview::downscale_preview;
use phantom::ui::ranges::subtract_range;
use phantom::ui::recorder::{PreviewThrottle, RecordingTask};
use phantom::ui::share_panel::{hex_u128, SharePanel};
use phantom::ui::state::{
    ai_quota_label, filter_by_title, free_ai_uses_left, rec_indicator, tier_badge, AiPanelState, AsyncResult,
};
use phantom::ui::timeline::{clock_label, export_keep_ranges, suggestion_label, Caption, EditorApp, ExportFormat};

fn panel() -> AiPanelState {
    AiPanelState {
        transcribe_busy: false,
        transcribe_output: String::new(),
        summarize_busy: false,
        summarize_output: String::new(),
        qa_question: String::new(),
        qa_history: Vec::new(),
        qa_busy: false,
        auto_edit_busy: false,
        auto_edit_suggestions: Vec::new(),
        code_busy: false,
        code_output: String::new(),
        status_msg: String::new(),
    }
}

#[test]
fn subtract_range_examples() {
    assert_eq!(subtract_range(vec![(0, 100)], 20, 30), vec![(0, 20), (30, 100)]);
    assert_eq!(subtract_range(vec![(0, 100)], 0, 30), vec![(30, 100)]);
    assert_eq!(subtract_range(vec![(0, 100)], 50, 200), vec![(0, 50)]);
    assert_eq!(subtract_range(vec![(0, 100)], 0, 100), vec![]);
    assert_eq!(subtract_range(vec![(0, 10), (20, 30)], 5, 25), vec![(0, 5), (25, 30)]);
    assert_eq!(subtract_range(vec![(0, 10)], 10, 20), vec![(0, 10)]);
}

#[test]
fn keep_ranges_skip_non_cuts_and_unknown_indices() {
    let sugs = [
        (EditKind::SilenceCut, 1000u64, 2000u64),
        (EditKind::HighlightReel, 0, 5000),
        (EditKind::FillerWord, 4000, 4500),
    ];
    assert_eq!(export_keep_ranges(0, 10_000, &sugs, &[0, 1, 2, 9]), vec![(0, 1000), (2000, 4000), (4500, 10_000)]);
    assert_eq!(export_keep_ranges(500, 3000, &sugs, &[]), vec![(500, 3000)]);
}

#[test]
fn export_formats() {
    assert_eq!(ExportFormat::Mp4.label(), "MP4 (H.264)");
    assert_eq!(ExportFormat::Gif.label(), "GIF");
    assert_eq!(ExportFormat::WebM.label(), "WebM (VP9)");
    assert_eq!(ExportFormat::Mp4.extension(), "mp4");
    assert_eq!(ExportFormat::WebM.extension(), "webm");
    assert_eq!(ExportFormat::Gif.extension(), "gif");
    let (v, a, extra) = ExportFormat::Mp4.codec_args().unwrap();
    assert_eq!((v, a), ("libx264", "aac"));
    assert_eq!(extra, vec!["-preset", "fast", "-crf", "23"]);
    let (v, a, extra) = ExportFormat::WebM.codec_args().unwrap();
    assert_eq!((v, a), ("libvpx-vp9", "libopus"));
    assert_eq!(extra, vec!["-crf", "30", "-b:v", "0"]);
    assert!(ExportFormat::Gif.codec_args().is_none());
}

#[test]
fn export_filter_graph() {
    assert_eq!(
        filter_complex(&[(0, 1500), (2005, 12_345)]),
        "[0:v]trim=start=0.000:end=1.500,setpts=PTS-STARTPTS[v0]; \
         [0:a]atrim=start=0.000:end=1.500,asetpts=PTS-STARTPTS[a0]; \
         [0:v]trim=start=2.005:end=12.345,setpts=PTS-STARTPTS[v1]; \
         [0:a]atrim=start=2.005:end=12.345,asetpts=PTS-STARTPTS[a1]; \
         [v0][a0][v1][a1]concat=n=2:v=1:a=1[vout][aout]"
    );
    assert_eq!(filter_complex(&[]), "concat=n=0:v=1:a=1[vout][aout]");
}

#[test]
fn seek_arguments() {
    let p = VideoPlayer::new("in.mp4".to_string());
    assert_eq!(
        p.seek_args(1500, false),
        vec![
            "-ss", "1.5", "-i", "in.mp4", "-f", "image2pipe", "-vcodec", "rawvideo", "-pix_fmt", "rgba", "-s",
            "640x360", "-r", "30", "-vframes", "1", "-",
        ]
    );
    let q = p.seek_args(2000, true);
    assert_eq!(q[1], "2");
    assert_eq!(q.last().unwrap(), "-");
    assert_eq!(q.len(), 15);
    assert_eq!(p.seek_args(61_020, true)[1], "61.02");
    assert_eq!(p.seek_args(7, true)[1], "0.007");
    // The text matches how the seconds print as a float.
    for ms in [0u64, 1, 10, 100, 999, 1000, 123_456, 3_600_001] {
        assert_eq!(p.seek_args(ms, true)[1], (ms as f64 / 1000.0).to_string());
    }
}

#[test]
fn editor_chapters_and_captions() {
    let mut e = EditorApp::new("in.mp4".to_string(), 60_000);
    assert_eq!(e.status, "Ready");
    assert_eq!(e.trim_out_ms, 60_000);
    assert_eq!(e.export_format, ExportFormat::Mp4);
    e.playhead_ms = 5_000;
    e.add_chapter_at_playhead("B".to_string());
    e.playhead_ms = 2_000;
    e.add_chapter_at_playhead("A".to_string());
    assert_eq!(e.status, "Chapter 'B' added at 2s");
    e.playhead_ms = 5_000;
    e.add_chapter_at_playhead("C".to_string());
    assert_eq!(e.chapters.len(), 3);
    let titles: Vec<&str> = (0..3).map(|i| e.chapters.get(i).title.as_str()).collect();
    assert_eq!(titles, vec!["A", "B", "C"]);
    e.load_captions(vec![
        Caption { start_ms: 0, end_ms: 999, text: "one".to_string() },
        Caption { start_ms: 1000, end_ms: 6000, text: "two".to_string() },
        Caption { start_ms: 4000, end_ms: 8000, text: "three".to_string() },
    ]);
    assert_eq!(e.current_caption(), Some(1));
    e.playhead_ms = 7000;
    assert_eq!(e.current_caption(), Some(2));
    e.playhead_ms = 9000;
    assert_eq!(e.current_caption(), None);
}

#[test]
fn preview_downscale() {
    // An 8x4 frame: preview is 2x1, sampling pixels (0,0) and (4,0).
    let mut data = vec![0u8; 8 * 4 * 4];
    data[0..4].copy_from_slice(&[1, 2, 3, 4]);
    data[16..20].copy_from_slice(&[5, 6, 7, 8]);
    let p = downscale_preview(&data, 8, 4).unwrap();
    assert_eq!((p.width, p.height), (2, 1));
    assert_eq!(p.rgba, vec![1, 2, 3, 255, 5, 6, 7, 255]);
    let short = downscale_preview(&data[..10], 8, 4).unwrap();
    assert_eq!(short.rgba, vec![1, 2, 3, 255, 10, 12, 20, 255]);
    assert!(downscale_preview(&data, 3, 100).is_none());
}

#[test]
fn recorder_decisions() {
    let t = RecordingTask { duration_limit: Some(10), output_path: "o.mp4".to_string(), title: "t".to_string() };
    assert!(!t.should_stop(false, 9));
    assert!(t.should_stop(false, 10));
    assert!(t.should_stop(true, 0));
    let u = RecordingTask { duration_limit: None, output_path: String::new(), title: String::new() };
    assert!(!u.should_stop(false, u64::MAX));
    let mut th = PreviewThrottle::new();
    assert!(!th.offer(100));
    assert!(th.offer(250));
    assert!(!th.offer(400));
    assert!(th.offer(500));
    assert_eq!(th.last_preview_ms, 500);
    assert!(!th.offer(10));
}

#[test]
fn dashboard_results() {
    let mut s = panel();
    s.transcribe_busy = true;
    s.apply(AsyncResult::TranscriptionReady("text".to_string()));
    assert!(!s.transcribe_busy);
    assert_eq!(s.transcribe_output, "text");
    assert_eq!(s.status_msg, "Transcription completed.");
    s.summarize_busy = true;
    s.apply(AsyncResult::SummaryReady("sum".to_string()));
    assert_eq!(s.summarize_output, "sum");
    assert_eq!(s.status_msg, "Summary generated.");
    s.qa_question = "why?".to_string();
    s.qa_busy = true;
    s.apply(AsyncResult::VideoQaReady("ignored".to_string(), "because".to_string()));
    assert_eq!(s.qa_history, vec![("why?".to_string(), "because".to_string())]);
    assert!(s.qa_question.is_empty());
    s.code_busy = true;
    s.summarize_busy = true;
    s.apply(AsyncResult::Error("boom".to_string()));
    assert_eq!(s.status_msg, "Error: boom");
    assert_eq!(s.code_output, "Failed: boom");
    assert_eq!(s.summarize_output, "Failed: boom");
    assert_eq!(s.transcribe_output, "text");
    assert!(!s.code_busy && !s.summarize_busy && !s.qa_busy && !s.auto_edit_busy && !s.transcribe_busy);
}

#[test]
fn dashboard_labels_and_filter() {
    assert_eq!(free_ai_uses_left(0), 3);
    assert_eq!(free_ai_uses_left(5), 0);
    assert_eq!(ai_quota_label(1), "AI 2/3");
    assert_eq!(ai_quota_label(7), "AI 0/3");
    assert_eq!(tier_badge(Tier::Free), "FREE");
    assert_eq!(tier_badge(Tier::Pro), "PRO");
    assert_eq!(tier_badge(Tier::Team), "TEAM");
    assert_eq!(rec_indicator(125), "● REC  2:05");
    assert_eq!(rec_indicator(3600), "● REC  60:00");
    let titles = vec!["Team Standup".to_string(), "demo".to_string(), "STANDUP notes".to_string()];
    assert_eq!(filter_by_title(&titles, "standup"), vec![0, 2]);
    assert_eq!(filter_by_title(&titles, ""), vec![0, 1, 2]);
    assert!(filter_by_title(&titles, "zzz").is_empty());
}

#[test]
fn overlay_toolbar() {
    let mut o = OverlayState::new();
    assert_eq!(o.record_label(), "⏺  Record");
    assert_eq!(o.timer_text(), None);
    assert_eq!(o.toggle_recording(), RecordToggle::Started);
    o.elapsed_secs = 65;
    assert_eq!(o.record_label(), "⏹  Stop");
    assert_eq!(o.timer_text().as_deref(), Some("01:05"));
    o.elapsed_secs = 6005;
    assert_eq!(o.timer_text().as_deref(), Some("100:05"));
    assert_eq!(o.toggle_recording(), RecordToggle::Stopped { duration_secs: 6005 });
    o.toggle_expanded();
    assert!(o.expanded);
    assert_eq!(QuickAction::Bookmark.command(), "bookmark");
    assert_eq!(QuickAction::Chapter.command(), "chapter");
    assert_eq!(QuickAction::Share.command(), "share");
    assert_eq!(QuickAction::Summarise.command(), "summarize");
}

#[test]
fn share_panel_options() {
    let mut free = SharePanel::new("rec".to_string(), false);
    assert_eq!(free.generate_label(), "✨ Generate Share Link");
    free.set_download(true);
    free.set_password_enabled(true);
    free.set_expiry_enabled(true);
    assert!(!free.options.enable_download && !free.password_enabled && free.options.expires_in_days.is_none());
    free.set_password_input("secret".to_string());
    free.set_expiry_days(30);
    free.set_password_enabled(false);
    free.set_expiry_enabled(false);
    assert_eq!(free.options.recording_id, "rec");
    assert!(!free.options.enable_download && free.options.password.is_none() && free.options.expires_in_days.is_none());

    let mut pro = SharePanel::new("rec".to_string(), true);
    pro.set_download(true);
    assert!(pro.options.enable_download);
    pro.set_password_input("ignored".to_string());
    assert!(pro.options.password.is_none());
    pro.set_password_enabled(true);
    pro.set_password_input("s3cret".to_string());
    assert_eq!(pro.options.password.as_deref(), Some("s3cret"));
    pro.set_password_input(String::new());
    assert!(pro.options.password.is_none());
    pro.set_password_input("again".to_string());
    pro.set_password_enabled(false);
    assert!(pro.password_input.is_empty() && pro.options.password.is_none());
    pro.set_expiry_enabled(true);
    assert_eq!(pro.options.expires_in_days, Some(7));
    pro.set_expiry_days(500);
    assert_eq!(pro.options.expires_in_days, Some(365));
    pro.set_expiry_days(0);
    assert_eq!(pro.options.expires_in_days, Some(1));
    pro.set_expiry_enabled(false);
    assert!(pro.options.expires_in_days.is_none());
}

#[test]
fn share_panel_links() {
    assert_eq!(hex_u128(0), "0");
    assert_eq!(hex_u128(255), "ff");
    assert_eq!(hex_u128(0x1a2b), "1a2b");
    assert_eq!(hex_u128(u128::MAX), "f".repeat(32));
    let mut p = SharePanel::new("rec".to_string(), true);
    p.set_link(0xabc);
    assert_eq!(p.share_link.as_deref(), Some("https://phantom.app/s/abc"));
    assert_eq!(p.status, "Link generated! (Signed via Supabase Storage)");
    assert_eq!(p.generate_label(), "🔄 Regenerate Link");
    p.generate_link();
    let link = p.share_link.unwrap();
    let token = link.strip_prefix("https://phantom.app/s/").unwrap();
    assert!(!token.is_empty() && token.len() <= 32);
    assert!(token.chars().all(|c| c.is_ascii_hexdigit() && !c.is_ascii_uppercase()));
    assert!(token == "0" || !token.starts_with('0'));
}

#[test]
fn gif_and_export_commands() {
    assert_eq!(
        gif_filter(&[(1500, 4000), (6000, 12_345)]),
        "[0:v]trim=start=1.5:end=12.345,setpts=PTS-STARTPTS,fps=12,scale=640:-1:flags=lanczos,split[s0][s1];[s0]palettegen[p];[s1][p]paletteuse[vout]"
    );
    assert!(gif_filter(&[]).starts_with("[0:v]trim=start=0:end=10,"));
    let g = export_args(ExportFormat::Gif, "in.mp4", &[(0, 2000)], "out.gif");
    assert_eq!(g.len(), 8);
    assert_eq!((g[0].as_str(), g[5].as_str(), g[6].as_str(), g[7].as_str()), ("-y", "-map", "[vout]", "out.gif"));
    let m = export_args(ExportFormat::Mp4, "in.mp4", &[(0, 2000)], "out.mp4");
    let tail: Vec<&str> = m[5..].iter().map(|s| s.as_str()).collect();
    assert_eq!(
        tail,
        vec!["-map", "[vout]", "-map", "[aout]", "-c:v", "libx264", "-c:a", "aac", "-preset", "fast", "-crf", "23", "out.mp4"]
    );
    assert_eq!(m[4], filter_complex(&[(0, 2000)]));
    let w = export_args(ExportFormat::WebM, "in.mp4", &[(0, 2000)], "o.webm");
    assert_eq!(w[10], "libvpx-vp9");
    assert_eq!(w[w.len() - 3..].to_vec(), vec!["-b:v".to_string(), "0".to_string(), "o.webm".to_string()]);
}

#[test]
fn export_status_lines() {
    let mut e = EditorApp::new("in.mp4".to_string(), 1000);
    e.begin_export("/tmp/out");
    assert_eq!(e.status, "Exporting to /tmp/out...");
    e.finish_export();
    assert_eq!(e.status, "Export complete!");
    e.export_format = ExportFormat::Gif;
    e.finish_export();
    assert_eq!(e.status, "GIF export complete!");
}

#[test]
fn editor_playback() {
    let mut e = EditorApp::new("in.mp4".to_string(), 10_000);
    assert_eq!(e.play_label(), "▶  Play");
    assert!(!e.advance_within_trim(500));
    assert_eq!(e.playhead_ms, 0);
    e.toggle_play();
    assert_eq!(e.play_label(), "⏸  Pause");
    e.trim_out_ms = 1_000;
    assert!(!e.advance_within_trim(600));
    assert_eq!(e.playhead_ms, 600);
    assert!(e.advance_within_trim(600));
    assert_eq!(e.playhead_ms, 1_000);
    assert!(!e.playing);
    e.toggle_play();
    e.playhead_ms = 9_900;
    assert!(!e.advance_to_end(50));
    assert_eq!(e.playhead_ms, 9_950);
    assert!(e.advance_to_end(500));
    assert_eq!(e.playhead_ms, 10_000);
    assert!(!e.playing);
    e.toggle_play();
    e.playhead_ms = u64::MAX - 1;
    e.trim_out_ms = u64::MAX;
    assert!(!e.advance_within_trim(10));
    assert_eq!(e.playhead_ms, u64::MAX);
}

#[test]
fn editor_labels() {
    assert_eq!(clock_label(0), "0:00");
    assert_eq!(clock_label(65_432), "1:05");
    assert_eq!(clock_label(3_600_000), "60:00");
    assert_eq!(
        suggestion_label(EditKind::SilenceCut, 61_000, 65_500, "4500ms of silence detected"),
        "[SilenceCut] 1:01–1:05 — 4500ms of silence detected"
    );
    let mut e = EditorApp::new("in.mp4".to_string(), 200_000);
    e.playhead_ms = 125_000;
    assert_eq!(e.playhead_chapter_title(), "Chapter at 2:05");
    e.add_chapter_at_playhead(e.playhead_chapter_title());
    assert_eq!(e.chapter_label(0), "2:05  Chapter at 2:05");
    e.trim_in_ms = 1_000;
    e.trim_out_ms = 190_000;
    assert_eq!(e.trim_label(), "0:01 — 3:10");
    e.playhead_ms = 0;
    e.seek_to_chapter(0);
    assert_eq!(e.playhead_ms, 125_000);
}

#[test]
fn ai_panel_texts() {
    let s = RecordingSummary {
        session_id: "id".to_string(),
        tldr: "Short.".to_string(),
        chapters: vec![Chapter { title: "Intro".to_string(), start_ms: 0 }, Chapter { title: "Demo".to_string(), start_ms: 61_000 }],
        action_items: vec![ActionItem { text: "Ship".to_string(), owner: None }],
        key_moments: vec![],
    };
    assert_eq!(
        summary_report(&s, false),
        "**TL;DR:** Short.\n\n✅ **Action Items:**\n  • Ship (Unassigned)\n\n📌 **Chapters:**\n  0ms – Intro\n  61000ms – Demo\n\n💡 Tip: Add a Gemini API key in Settings to get full cloud-powered summaries."
    );
    let bare = RecordingSummary { session_id: String::new(), tldr: "T".to_string(), chapters: vec![], action_items: vec![], key_moments: vec![] };
    assert_eq!(summary_report(&bare, true), "**TL;DR:** T\n\n");
    let words: Vec<String> = (0..60).map(|i| format!("w{i}")).collect();
    let l = local_summary(&words.join(" "));
    assert!(l.starts_with("**Local Summary (no API key):**\nw0 w1 "));
    assert!(l.contains(" w49…\n\n💡 Add a Gemini API key"));
    assert!(!l.contains("w50"));
    let o = OcrResult {
        text: "hello".to_string(),
        has_code: true,
        snippets: vec![CodeSnippet { language: "rust".to_string(), code: "fn main() {}".to_string(), description: "entry".to_string() }],
    };
    assert_eq!(ocr_report(&o), "Extracted Text:\nhello\n\n// entry (rust)\nfn main() {}\n\n");
    assert_eq!(ocr_report(&OcrResult::unparsed()), "Extracted Text:\nCould not parse AI response.\n\n");
    assert_eq!(search_lines(&vec!["A".to_string(), "B".to_string()]), vec!["Matched: A", "Matched: B"]);
    assert_eq!(search_lines(&vec![]), vec!["No matches found."]);
    assert!(pro_lock_message(AiTab::Summarize).is_none());
    assert!(pro_lock_message(AiTab::SmartSearch).is_none());
    assert_eq!(
        pro_lock_message(AiTab::CodeIntel),
        Some("Code Intelligence requires Pro. Extract code snippets and OCR terminal output from keyframes.")
    );
    assert!(can_run_summary("t", false, 1));
    assert!(!can_run_summary("t", false, 0));
    assert!(can_run_summary("t", true, 0));
    assert!(!can_run_summary("", true, 3));
    assert_eq!(free_uses_notice(2), "Free: 2/3 AI uses left today");
}

#[test]
fn qr_code_for_paid_links_only() {
    let mut pro = SharePanel::new("rec".to_string(), true);
    assert!(pro.qr_code().is_none());
    pro.set_link(0xabc);
    let g = pro.qr_code().expect("a paid link has a QR code");
    assert!(g.len() >= 21 && g.len() <= 177);
    assert!(g.iter().all(|row| row.len() == g.len()));
    // The finder pattern in the top-left corner: a dark 7x7 ring.
    assert!(g[0][..7].iter().all(|&m| m));
    assert!(g[6][..7].iter().all(|&m| m));
    assert!(!g[1][1]);
    let mut free = SharePanel::new("rec".to_string(), false);
    free.set_link(0xabc);
    assert!(free.qr_code().is_none());
}
