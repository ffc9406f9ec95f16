use phantom::ai::auto_edit::{
    detect_filler_words, highlight_edit, highlight_fallback, highlight_prompt, strip_json_fences, EditKind,
};
use phantom::ai::gemini::{
    cloud_response, first_candidate_text, generate_url, generic_plan, summary_plan, ReplyAction, RetrySchedule,
};
use phantom::ai::live_assistant::LiveAssistant;
use phantom::ai::nano::NanoClient;
use phantom::ai::router::{pro_required_message, route, AiBackend, AiRequestKind, Route};
use phantom::ai::types::{code_intelligence_prompt, ActionItem, Chapter, OcrResult, RecordingSummary};
use phantom::ai::video_qa::{clock_hint, extract_timestamp_hint, seconds_hint, VideoQaSession};
use phantom::billing::tier::Tier;

fn all_kinds() -> Vec<AiRequestKind> {
    vec![
        AiRequestKind::Transcribe { audio_path: "a.wav".to_string() },
        AiRequestKind::Summarise { transcript: "t".to_string() },
        AiRequestKind::Chapters { transcript: "t".to_string() },
        AiRequestKind::ActionItems { transcript: "t".to_string() },
        AiRequestKind::VideoQa { transcript: "t".to_string(), question: "q".to_string() },
        AiRequestKind::LiveAssistant { message: "m".to_string(), screen_context: None },
    ]
}

#[test]
fn nano_quotes_first_fifteen_words() {
    let c = NanoClient::new("windows");
    assert!(c.is_available());
    let r = c.summarise("one two  three\tfour five six seven eight nine ten eleven twelve thirteen fourteen fifteen sixteen");
    assert_eq!(r.backend, AiBackend::GeminiNano);
    assert!(r.structured.is_none());
    assert_eq!(
        r.text,
        "(Nano Summary): Based on the transcript, the user discussed 'one two three four five six seven eight nine ten eleven twelve thirteen fourteen fifteen...'. This is an on-device local summary generated without cloud access."
    );
}

#[test]
fn extractive_fallback_keeps_three_sentences() {
    let c = NanoClient::new("linux");
    assert!(!c.is_available());
    assert!(!NanoClient::probe_nano_availability("macos"));
    let r = c.summarise("First point. Second point. Third point. Fourth point.");
    assert_eq!(r.text, "First point. Second point. Third point.");
    assert_eq!(NanoClient::extractive_fallback("Just one").text, "Just one");
    assert_eq!(NanoClient::extractive_fallback("Hello world.").text, "Hello world.");
    assert_eq!(NanoClient::extractive_fallback("A. B. C.").text, "A. B. C.");
    assert_eq!(NanoClient::extractive_fallback("A. B. C. D").text, "A. B. C.");
    assert_eq!(NanoClient::extractive_fallback("").text, "No transcript available to summarise.");
}

#[test]
fn free_tier_routes() {
    let expected = [
        Route::LocalWhisper,
        Route::NanoWithDailyCap,
        Route::ProRequired,
        Route::ProRequired,
        Route::ProRequired,
        Route::ProRequired,
    ];
    for (k, e) in all_kinds().iter().zip(expected) {
        assert_eq!(route(Tier::Free, k), e);
    }
}

#[test]
fn paid_tier_routes() {
    for tier in [Tier::Pro, Tier::Team] {
        let expected = [
            Route::LocalWhisper,
            Route::GeminiSummary,
            Route::GeminiGeneric,
            Route::GeminiGeneric,
            Route::GeminiGeneric,
            Route::GeminiGeneric,
        ];
        for (k, e) in all_kinds().iter().zip(expected) {
            assert_eq!(route(tier, k), e);
        }
    }
    assert_eq!(
        pro_required_message(),
        "This feature requires a Phantom Pro subscription. Upgrade at https://phantom.app/upgrade"
    );
}

#[test]
fn generation_plans() {
    let s = summary_plan("hello");
    assert_eq!(s.model, "gemini-2.0-flash");
    assert_eq!(s.max_tokens, 1024);
    assert!(s.prompt.starts_with("You are an AI assistant embedded in a screen recording app called Phantom."));
    assert!(s.prompt.ends_with("\n\nTranscript:\nhello"));
    let c = generic_plan(&AiRequestKind::Chapters { transcript: "x".to_string() }).unwrap();
    assert_eq!(c.model, "gemini-2.5-pro");
    assert_eq!(c.max_tokens, 2048);
    let q = generic_plan(&AiRequestKind::VideoQa { transcript: "T".to_string(), question: "Why?".to_string() }).unwrap();
    assert_eq!(
        q.prompt,
        "Answer the following question about a screen recording, using the transcript below.\nQuestion: Why?\n\nTranscript:\nT"
    );
    let l = generic_plan(&AiRequestKind::LiveAssistant { message: "hi".to_string(), screen_context: None }).unwrap();
    assert_eq!(l.max_tokens, 512);
    assert_eq!(
        l.prompt,
        "You are Phantom's live AI assistant. The user is currently recording their screen.\nScreen context: (no screen context)\n\nUser says: hi\nRespond concisely (1–3 sentences max)."
    );
    let a = generic_plan(&AiRequestKind::ActionItems { transcript: "x".to_string() }).unwrap();
    assert_eq!(a.model, "gemini-2.0-flash");
    assert!(generic_plan(&AiRequestKind::Summarise { transcript: "x".to_string() }).is_none());
    assert!(generic_plan(&AiRequestKind::Transcribe { audio_path: "x".to_string() }).is_none());
}

#[test]
fn gemini_endpoint() {
    assert_eq!(
        generate_url("gemini-2.0-flash", "KEY"),
        "https://generativelanguage.googleapis.com/v1beta/models/gemini-2.0-flash:generateContent?key=KEY"
    );
}

#[test]
fn cloud_response_reads_json() {
    let r = cloud_response("[{\"title\": \"Intro\", \"start_ms\": 0}]".to_string(), true);
    assert_eq!(r.backend, AiBackend::GeminiPro);
    assert!(r.structured.is_some());
    let t = cloud_response("plain words".to_string(), true);
    assert!(t.structured.is_none());
    assert_eq!(t.text, "plain words");
    let u = cloud_response("[1, 2]".to_string(), false);
    assert!(u.structured.is_none());
}

#[test]
fn retry_backoff_doubles() {
    let mut s = RetrySchedule::new();
    let mut waits = Vec::new();
    while s.may_send() {
        waits.push(s.rate_limited());
    }
    assert_eq!(waits, vec![500, 1000, 2000, 4000]);
}

#[test]
fn replies_decide_retry_fail_or_accept() {
    let mut s = RetrySchedule::new();
    assert_eq!(s.on_reply(429), ReplyAction::WaitAndRetry { wait_ms: 500 });
    assert_eq!(s.on_reply(429), ReplyAction::WaitAndRetry { wait_ms: 1000 });
    assert_eq!(s.on_reply(500), ReplyAction::Fail { status: 500 });
    assert_eq!(s.on_reply(404), ReplyAction::Fail { status: 404 });
    assert_eq!(s.on_reply(200), ReplyAction::Accept);
    assert_eq!(s.on_reply(304), ReplyAction::Accept);
    assert!(s.may_send());
    assert_eq!(s.on_reply(429), ReplyAction::WaitAndRetry { wait_ms: 2000 });
    assert_eq!(s.on_reply(429), ReplyAction::WaitAndRetry { wait_ms: 4000 });
    assert!(!s.may_send());
}

#[test]
fn first_candidate_text_or_empty() {
    let c = vec![vec!["a".to_string(), "b".to_string()], vec!["c".to_string()]];
    assert_eq!(first_candidate_text(c), "a");
    assert_eq!(first_candidate_text(vec![]), "");
    assert_eq!(first_candidate_text(vec![vec![], vec!["c".to_string()]]), "");
}

#[test]
fn filler_words_one_per_segment() {
    let segs = [
        (0u64, 1000u64, "Um so here we go"),
        (1000, 2000, "This is clean"),
        (2000, 3000, "and, you know, it works, like, fine"),
    ];
    let r = detect_filler_words(&segs);
    assert_eq!(r.len(), 2);
    assert_eq!(r[0].kind, EditKind::FillerWord);
    assert_eq!((r[0].start_ms, r[0].end_ms), (0, 1000));
    assert_eq!(r[0].reason, "Filler word/phrase detected: \"um\"");
    assert_eq!((r[1].start_ms, r[1].end_ms), (2000, 3000));
    assert_eq!(r[1].reason, "Filler word/phrase detected: \"like,\"");
}

#[test]
fn highlight_helpers() {
    assert_eq!(
        highlight_prompt("T", 90000),
        "You are an AI video editor. Identify the single most engaging, informative, or exciting 60-second segment in this recording transcript.\nRespond ONLY with a JSON object: {\"start_ms\": <number>, \"end_ms\": <number>, \"reason\": \"<string>\"}\nThe recording is 90000ms long.\n\nTranscript:\nT"
    );
    assert_eq!(strip_json_fences("  ```json\n{\"a\": 1}\n```  "), "{\"a\": 1}");
    assert_eq!(strip_json_fences("```json```json{}``````"), "{}");
    let f = highlight_fallback(30_000);
    assert_eq!((f.start_ms, f.end_ms), (0, 30_000));
    assert_eq!(f.reason, "Could not parse AI response; defaulting to first 60s");
    assert_eq!(highlight_fallback(600_000).end_ms, 60_000);
    let e = highlight_edit(5, 65, "best".to_string());
    assert_eq!(e.kind, EditKind::HighlightReel);
    assert_eq!((e.start_ms, e.end_ms, e.reason.as_str()), (5, 65, "best"));
}

#[test]
fn timestamp_hints() {
    assert_eq!(extract_timestamp_hint("It happens at 2:34 in the video."), Some(154_000));
    assert_eq!(extract_timestamp_hint("See 1:02:03."), Some(3_723_000));
    assert_eq!(extract_timestamp_hint("Around 154 Seconds in"), Some(154_000));
    assert_eq!(extract_timestamp_hint("after 12sec"), Some(12_000));
    assert_eq!(extract_timestamp_hint("No time mentioned."), None);
    assert_eq!(clock_hint("2", "34", None), 154_000);
    assert_eq!(clock_hint("1", "02", Some("03")), 3_723_000);
    assert_eq!(seconds_hint("42"), 42_000);
}

#[test]
fn video_qa_conversation() {
    let mut s = VideoQaSession::new("the transcript".to_string());
    match s.question_request("What happened?") {
        AiRequestKind::VideoQa { transcript, question } => {
            assert_eq!(transcript, "the transcript");
            assert_eq!(question, "What happened?");
        }
        _ => panic!("wrong request kind"),
    }
    let e = s.record("What happened?", "A demo at 1:05.".to_string());
    assert_eq!(e.relevant_timestamp_ms, Some(65_000));
    s.record("And then?", "Nothing.".to_string());
    assert_eq!(s.history_context(), "Q: What happened?\nA: A demo at 1:05.\n\nQ: And then?\nA: Nothing.");
    match s.question_request("Why?") {
        AiRequestKind::VideoQa { question, .. } => assert_eq!(
            question,
            "Previous conversation:\nQ: What happened?\nA: A demo at 1:05.\n\nQ: And then?\nA: Nothing.\n\nNew question: Why?"
        ),
        _ => panic!("wrong request kind"),
    }
    s.reset_history();
    assert!(s.history.is_empty());
    assert_eq!(s.transcript, "the transcript");
}

#[test]
fn video_qa_context_keeps_last_three() {
    let mut s = VideoQaSession::new(String::new());
    for i in 0..5 {
        s.record(&format!("q{i}"), format!("a{i}"));
    }
    assert_eq!(s.history_context(), "Q: q2\nA: a2\n\nQ: q3\nA: a3\n\nQ: q4\nA: a4");
}

#[test]
fn live_assistant_transcript_and_clock() {
    let mut a = LiveAssistant::new();
    a.push_transcript("hello");
    a.push_transcript("world");
    assert_eq!(a.rolling_transcript(), "hello world");
    a.tick();
    a.tick();
    assert_eq!(a.session_secs(), 2);
}

#[test]
fn live_assistant_rolls_at_word_boundary() {
    let mut a = LiveAssistant::new();
    let first = "x".repeat(3990);
    a.push_transcript(&first);
    a.push_transcript("abc def ghijklmnop");
    // 3990 + 1 + 18 bytes: the last 4000 begin inside the run of x's, and the cut
    // moves past the first space after that point.
    assert_eq!(a.rolling_transcript(), "abc def ghijklmnop");
    let mut b = LiveAssistant::new();
    b.push_transcript(&"y".repeat(4005));
    assert_eq!(b.rolling_transcript(), "y".repeat(4000));
}

#[test]
fn live_assistant_ascii_stream_stays_bounded() {
    let mut a = LiveAssistant::new();
    for i in 0..500 {
        a.push_transcript(&format!("sentence number {i} of the stream"));
        assert!(a.rolling_transcript().len() <= 4000);
        assert!(a.rolling_transcript().is_ascii());
    }
    assert!(a.rolling_transcript().ends_with("sentence number 499 of the stream"));
}

#[test]
fn live_assistant_prepare_and_history() {
    let mut a = LiveAssistant::new();
    match a.prepare("hi", Some("editor open".to_string())) {
        AiRequestKind::LiveAssistant { message, screen_context } => {
            assert_eq!(message, "hi");
            assert_eq!(screen_context.as_deref(), Some("editor open"));
        }
        _ => panic!("wrong request kind"),
    }
    a.push_transcript("we are testing");
    a.tick();
    let t = a.record_turn("hi", "hello".to_string(), None);
    assert_eq!(t.session_offset_secs, 1);
    match a.prepare("next", Some("terminal".to_string())) {
        AiRequestKind::LiveAssistant { message, screen_context } => {
            assert_eq!(message, "Previous assistant turns:\nUser: hi\nPhantom: hello\n\nUser's new question: next");
            assert_eq!(
                screen_context.as_deref(),
                Some("Current session transcript (last segment): we are testing\nScreen: terminal")
            );
        }
        _ => panic!("wrong request kind"),
    }
    for i in 0..6 {
        a.record_turn(&format!("m{i}"), format!("r{i}"), None);
    }
    assert_eq!(a.history.len(), 5);
    assert_eq!(a.history[0].user_message, "m1");
    assert_eq!(a.history[4].user_message, "m5");
    assert_eq!(a.turn_context(), "User: m3\nPhantom: r3\nUser: m4\nPhantom: r4\nUser: m5\nPhantom: r5");
}

#[test]
fn summary_assembly_degrades_softly() {
    let chapters = vec![Chapter { title: "Intro".to_string(), start_ms: 0 }];
    let s = RecordingSummary::assemble("id".to_string(), "tl;dr".to_string(), Some(chapters), None);
    assert_eq!(s.tldr, "tl;dr");
    assert_eq!(s.chapters.len(), 1);
    assert!(s.action_items.is_empty());
    assert!(s.key_moments.is_empty());
    let items = vec![ActionItem { text: "ship".to_string(), owner: Some("ana".to_string()) }];
    let t = RecordingSummary::assemble("id".to_string(), String::new(), None, Some(items));
    assert!(t.chapters.is_empty());
    assert_eq!(t.action_items[0].owner.as_deref(), Some("ana"));
}

#[test]
fn code_intelligence_defaults() {
    let o = OcrResult::unparsed();
    assert_eq!(o.text, "Could not parse AI response.");
    assert!(!o.has_code);
    assert!(o.snippets.is_empty());
    assert!(code_intelligence_prompt().starts_with("Analyze this screen recording keyframe."));
}
