//! Plain records produced by the AI features.
use vstd::prelude::*;
use crate::text::owned;

verus! {

/// A code snippet read off a keyframe.
pub struct CodeSnippet {
    pub language: String,
    pub code: String,
    pub description: String,
}

/// Text and code read off a keyframe.
pub struct OcrResult {
    pub text: String,
    pub has_code: bool,
    pub snippets: Vec<CodeSnippet>,
}

impl OcrResult {
    /// The result reported when the model's answer is not the expected JSON.
    pub fn unparsed() -> (r: Self)
        ensures
            r.text@ == "Could not parse AI response."@,
            !r.has_code,
            r.snippets@.len() == 0,
    {
        OcrResult { text: owned("Could not parse AI response."), has_code: false, snippets: Vec::new() }
    }
}

/// The prompt sent with a keyframe to read code and text off it.
pub fn code_intelligence_prompt() -> (s: &'static str)
    ensures
        s@ == "Analyze this screen recording keyframe. Extract any visible text. If there is source code or terminal output visible, extract it exactly as written, identify the programming language, and provide a brief description.\nRespond ONLY with a JSON object in this format:\n{\"text\": \"...\", \"has_code\": true/false, \"snippets\": [{\"language\": \"...\", \"code\": \"...\", \"description\": \"...\"}]}"@,
{
    "Analyze this screen recording keyframe. Extract any visible text. If there is source code or terminal output visible, extract it exactly as written, identify the programming language, and provide a brief description.\nRespond ONLY with a JSON object in this format:\n{\"text\": \"...\", \"has_code\": true/false, \"snippets\": [{\"language\": \"...\", \"code\": \"...\", \"description\": \"...\"}]}"
}

/// A chapter marker of a summary.
pub struct Chapter {
    pub title: String,
    pub start_ms: u64,
}

/// An action item of a summary.
pub struct ActionItem {
    pub text: String,
    pub owner: Option<String>,
}

impl ActionItem {
    /// The item as a summary line: its text and its owner, or "Unassigned".
    pub fn summary_line(&self) -> (s: String)
        ensures
            s@ == "- "@ + self.text@ + " (Owner: "@ + match self.owner {
                Some(o) => o@,
                None => "Unassigned"@,
            } + ")"@,
    {
        let mut s = owned("- ");
        s.append(self.text.as_str());
        s.append(" (Owner: ");
        match &self.owner {
            Some(o) => s.append(o.as_str()),
            None => s.append("Unassigned"),
        }
        s.append(")");
        s
    }
}

/// A key moment of a summary.
pub struct KeyMoment {
    pub label: String,
    pub timestamp_ms: u64,
}

/// The AI summary of a recording. The session id is a UUID in its hyphenated
/// text form.
pub struct RecordingSummary {
    pub session_id: String,
    /// Short overview of two or three sentences.
    pub tldr: String,
    /// Timestamped chapter markers (empty where the tier does not offer them).
    pub chapters: Vec<Chapter>,
    /// Extracted action items (empty where the tier does not offer them).
    pub action_items: Vec<ActionItem>,
    /// Key moments; none are detected yet.
    pub key_moments: Vec<KeyMoment>,
}

impl RecordingSummary {
    /// A summary from the overview and the chapters and action items that could
    /// be had: a request that was refused or answered with an unreadable list
    /// (`None`) contributes an empty list.
    pub fn assemble(
        session_id: String,
        tldr: String,
        chapters: Option<Vec<Chapter>>,
        action_items: Option<Vec<ActionItem>>,
    ) -> (r: Self)
        ensures
            r.session_id == session_id,
            r.tldr == tldr,
            r.chapters@ == match chapters {
                Some(c) => c@,
                None => Seq::<Chapter>::empty(),
            },
            r.action_items@ == match action_items {
                Some(a) => a@,
                None => Seq::<ActionItem>::empty(),
            },
            r.key_moments@.len() == 0,
    {
        let chapters = match chapters {
            Some(c) => c,
            None => Vec::new(),
        };
        let action_items = match action_items {
            Some(a) => a,
            None => Vec::new(),
        };
        RecordingSummary { session_id, tldr, chapters, action_items, key_moments: Vec::new() }
    }
}

/// One exchange with the live assistant.
pub struct AssistantTurn {
    pub user_message: String,
    pub assistant_reply: String,
    /// Screen context that was provided.
    pub screen_context: Option<String>,
    /// Seconds since the session started.
    pub session_offset_secs: u64,
}

/// One question-and-answer exchange about a recording.
pub struct QaExchange {
    pub question: String,
    pub answer: String,
    /// Relevant timestamp in the recording (milliseconds), if detected.
    pub relevant_timestamp_ms: Option<u64>,
}

} // verus!
