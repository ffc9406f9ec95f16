//! The AI panel's texts and gates: which tabs need Pro, when a summary may run,
//! and how summaries, code scans and search results are shown.
use vstd::prelude::*;
use crate::ai::types::{ActionItem, Chapter, CodeSnippet, OcrResult, RecordingSummary};
use crate::text::{chars_of, decimal, first_n, first_words, join, owned, push_chars, u64_to_string, words};
use crate::ui::state::AiTab;

verus! {

/// The owner of an action item, or "Unassigned".
pub open spec fn owner_text(o: Option<String>) -> Seq<char> {
    match o {
        Some(s) => s@,
        None => "Unassigned"@,
    }
}

/// The action-item lines of a summary.
pub open spec fn action_lines(items: Seq<ActionItem>) -> Seq<char>
    decreases items.len(),
{
    if items.len() == 0 {
        seq![]
    } else {
        action_lines(items.drop_last()) + "  • "@ + items.last().text@ + " ("@ + owner_text(items.last().owner) + ")\n"@
    }
}

/// The chapter lines of a summary.
pub open spec fn chapter_lines(chs: Seq<Chapter>) -> Seq<char>
    decreases chs.len(),
{
    if chs.len() == 0 {
        seq![]
    } else {
        chapter_lines(chs.drop_last()) + "  "@ + decimal(chs.last().start_ms as nat) + "ms – "@ + chs.last().title@ + "\n"@
    }
}

/// A summary as the panel shows it: the overview, the action items and the
/// chapters when there are any, and a tip when no API key is set.
pub open spec fn spec_summary_report(s: RecordingSummary, has_api_key: bool) -> Seq<char> {
    "**TL;DR:** "@ + s.tldr@ + "\n\n"@
        + (if s.action_items@.len() > 0 { "✅ **Action Items:**\n"@ + action_lines(s.action_items@) } else { Seq::<char>::empty() })
        + (if s.chapters@.len() > 0 { "\n📌 **Chapters:**\n"@ + chapter_lines(s.chapters@) } else { Seq::<char>::empty() })
        + (if has_api_key { Seq::<char>::empty() } else { "\n💡 Tip: Add a Gemini API key in Settings to get full cloud-powered summaries."@ })
}

/// A summary as the panel shows it.
pub fn summary_report(s: &RecordingSummary, has_api_key: bool) -> (out: String)
    ensures
        out@ == spec_summary_report(*s, has_api_key),
{
    let mut out = owned("**TL;DR:** ");
    out.append(s.tldr.as_str());
    out.append("\n\n");
    let ghost head = out@;
    if s.action_items.len() > 0 {
        out.append("✅ **Action Items:**\n");
        let ghost base = out@;
        let mut i: usize = 0;
        while i < s.action_items.len()
            invariant
                i <= s.action_items@.len(),
                out@ == base + action_lines(s.action_items@.take(i as int)),
            decreases s.action_items@.len() - i,
        {
            let item = &s.action_items[i];
            out.append("  • ");
            out.append(item.text.as_str());
            out.append(" (");
            match &item.owner {
                Some(o) => out.append(o.as_str()),
                None => out.append("Unassigned"),
            }
            out.append(")\n");
            proof {
                assert(s.action_items@.take(i + 1).drop_last() =~= s.action_items@.take(i as int));
                assert(out@ =~= base + action_lines(s.action_items@.take(i + 1)));
            }
            i = i + 1;
        }
        assert(s.action_items@.take(i as int) =~= s.action_items@);
    }
    let ghost mid = out@;
    assert(mid == head + (if s.action_items@.len() > 0 { "✅ **Action Items:**\n"@ + action_lines(s.action_items@) } else { Seq::<char>::empty() }));
    if s.chapters.len() > 0 {
        out.append("\n📌 **Chapters:**\n");
        let ghost base = out@;
        let mut i: usize = 0;
        while i < s.chapters.len()
            invariant
                i <= s.chapters@.len(),
                out@ == base + chapter_lines(s.chapters@.take(i as int)),
            decreases s.chapters@.len() - i,
        {
            let ch = &s.chapters[i];
            out.append("  ");
            let d = u64_to_string(ch.start_ms);
            out.append(d.as_str());
            out.append("ms – ");
            out.append(ch.title.as_str());
            out.append("\n");
            proof {
                assert(s.chapters@.take(i + 1).drop_last() =~= s.chapters@.take(i as int));
                assert(out@ =~= base + chapter_lines(s.chapters@.take(i + 1)));
            }
            i = i + 1;
        }
        assert(s.chapters@.take(i as int) =~= s.chapters@);
    }
    if !has_api_key {
        out.append("\n💡 Tip: Add a Gemini API key in Settings to get full cloud-powered summaries.");
    }
    proof {
        assert(out@ =~= spec_summary_report(*s, has_api_key));
    }
    out
}

/// The summary made without any AI backend: the first fifty words of the
/// transcript, and a hint to add an API key.
pub fn local_summary(transcript: &str) -> (out: String)
    ensures
        out@ == "**Local Summary (no API key):**\n"@ + join(first_n(words(transcript@), 50), seq![' '])
            + "…\n\n💡 Add a Gemini API key in Settings for full AI analysis."@,
{
    let cs = chars_of(transcript);
    let snippet = first_words(cs.as_slice(), 50);
    let mut out = owned("**Local Summary (no API key):**\n");
    push_chars(&mut out, snippet.as_slice());
    out.append("…\n\n💡 Add a Gemini API key in Settings for full AI analysis.");
    out
}

/// The lines of the code snippets of a scan.
pub open spec fn snippet_lines(ss: Seq<CodeSnippet>) -> Seq<char>
    decreases ss.len(),
{
    if ss.len() == 0 {
        seq![]
    } else {
        let s = ss.last();
        snippet_lines(ss.drop_last()) + "// "@ + s.description@ + " ("@ + s.language@ + ")\n"@ + s.code@ + "\n\n"@
    }
}

/// A keyframe scan as the panel shows it: the text, then each snippet when code
/// was found.
pub fn ocr_report(r: &OcrResult) -> (out: String)
    ensures
        out@ == "Extracted Text:\n"@ + r.text@ + "\n\n"@ + (if r.has_code { snippet_lines(r.snippets@) } else { Seq::<char>::empty() }),
{
    let mut out = owned("Extracted Text:\n");
    out.append(r.text.as_str());
    out.append("\n\n");
    let ghost base = out@;
    if r.has_code {
        let mut i: usize = 0;
        while i < r.snippets.len()
            invariant
                i <= r.snippets@.len(),
                out@ == base + snippet_lines(r.snippets@.take(i as int)),
            decreases r.snippets@.len() - i,
        {
            let s = &r.snippets[i];
            out.append("// ");
            out.append(s.description.as_str());
            out.append(" (");
            out.append(s.language.as_str());
            out.append(")\n");
            out.append(s.code.as_str());
            out.append("\n\n");
            proof {
                assert(r.snippets@.take(i + 1).drop_last() =~= r.snippets@.take(i as int));
                assert(out@ =~= base + snippet_lines(r.snippets@.take(i + 1)));
            }
            i = i + 1;
        }
        assert(r.snippets@.take(i as int) =~= r.snippets@);
    }
    proof {
        assert(out@ =~= "Extracted Text:\n"@ + r.text@ + "\n\n"@ + (if r.has_code { snippet_lines(r.snippets@) } else { Seq::<char>::empty() }));
    }
    out
}

/// The search results as listed: "Matched: title" for each, or a single line
/// saying nothing matched.
pub fn search_lines(titles: &Vec<String>) -> (lines: Vec<String>)
    ensures
        titles@.len() == 0 ==> lines@.len() == 1 && lines@[0]@ == "No matches found."@,
        titles@.len() > 0 ==> lines@.len() == titles@.len()
            && forall|i: int| 0 <= i < titles@.len() ==> #[trigger] lines@[i]@ == "Matched: "@ + titles@[i]@,
{
    let mut lines: Vec<String> = Vec::new();
    let mut i: usize = 0;
    while i < titles.len()
        invariant
            i <= titles@.len(),
            lines@.len() == i,
            forall|k: int| 0 <= k < i ==> #[trigger] lines@[k]@ == "Matched: "@ + titles@[k]@,
        decreases titles@.len() - i,
    {
        let mut l = owned("Matched: ");
        l.append(titles[i].as_str());
        lines.push(l);
        i = i + 1;
    }
    if lines.len() == 0 {
        lines.push(owned("No matches found."));
    }
    lines
}

/// The notice shown instead of a tab that needs Pro, for a free user.
pub fn pro_lock_message(tab: AiTab) -> (m: Option<&'static str>)
    ensures
        match tab {
            AiTab::VideoQa => m matches Some(s) && s@ == "Video Q&A requires Pro. Upgrade to ask natural language questions about any recording."@,
            AiTab::LiveAssistant => m matches Some(s) && s@ == "Live Assistant requires Pro. Get real-time AI answers during active recordings."@,
            AiTab::AutoEdit => m matches Some(s) && s@ == "Auto-Edit requires Pro. Detect silences, filler words, and generate highlight reels."@,
            AiTab::CodeIntel => m matches Some(s) && s@ == "Code Intelligence requires Pro. Extract code snippets and OCR terminal output from keyframes."@,
            _ => m is None,
        },
{
    match tab {
        AiTab::VideoQa => Some("Video Q&A requires Pro. Upgrade to ask natural language questions about any recording."),
        AiTab::LiveAssistant => Some("Live Assistant requires Pro. Get real-time AI answers during active recordings."),
        AiTab::AutoEdit => Some("Auto-Edit requires Pro. Detect silences, filler words, and generate highlight reels."),
        AiTab::CodeIntel => Some("Code Intelligence requires Pro. Extract code snippets and OCR terminal output from keyframes."),
        _ => None,
    }
}

/// A summary may run once there is text to summarise and, on the free tier, an
/// AI use left today.
pub fn can_run_summary(input: &str, is_pro: bool, daily_left: u32) -> (b: bool)
    ensures
        b == (input@.len() > 0 && (is_pro || daily_left > 0)),
{
    !input.is_empty() && (is_pro || daily_left > 0)
}

/// The free tier's remaining-uses notice.
pub fn free_uses_notice(daily_left: u32) -> (s: String)
    ensures
        s@ == "Free: "@ + decimal(daily_left as nat) + "/3 AI uses left today"@,
{
    let mut s = owned("Free: ");
    let n = u64_to_string(daily_left as u64);
    s.append(n.as_str());
    s.append("/3 AI uses left today");
    s
}

} // verus!
