//! Gemini API requests: model choice, prompts, endpoint and the retry schedule
//! used when the API answers "too many requests".
use vstd::prelude::*;
use crate::ai::router::{AiBackend, AiRequestKind, AiResponse};
use crate::text::owned;

verus! {

/// The API's base URL.
pub open spec fn gemini_base() -> Seq<char> {
    "https://generativelanguage.googleapis.com/v1beta"@
}

/// The deep-analysis model.
pub open spec fn model_pro() -> Seq<char> {
    "gemini-2.5-pro"@
}

/// The fast model.
pub open spec fn model_flash() -> Seq<char> {
    "gemini-2.0-flash"@
}

/// What to send for a request: model, prompt and output-token budget.
pub struct GenerationPlan {
    pub model: String,
    pub prompt: String,
    pub max_tokens: u32,
}

/// The summary prompt for a transcript.
pub open spec fn spec_summary_prompt(transcript: Seq<char>) -> Seq<char> {
    "You are an AI assistant embedded in a screen recording app called Phantom.\nAnalyse the following recording transcript and produce:\n1. A 2–3 sentence TL;DR summary.\n2. 3–5 bullet-point key moments.\n3. A list of action items (tasks, decisions, follow-ups).\n\nTranscript:\n"@
        + transcript
}

/// The plan for a generic (non-summary) request: `None` for the kinds that the
/// generic path does not serve (transcription and summaries).
pub open spec fn spec_generic_plan(kind: AiRequestKind) -> Option<(Seq<char>, Seq<char>, u32)> {
    match kind {
        AiRequestKind::Chapters { transcript } => Some((
            model_pro(),
            "Analyse this recording transcript and generate a list of chapters.\nFormat: JSON array of {\"title\": string, \"start_ms\": number}.\n\nTranscript:\n"@
                + transcript@,
            2048,
        )),
        AiRequestKind::ActionItems { transcript } => Some((
            model_flash(),
            "Extract all action items, decisions, and follow-ups from this transcript.\nFormat: JSON array of {\"item\": string, \"owner\": string|null}.\n\nTranscript:\n"@
                + transcript@,
            1024,
        )),
        AiRequestKind::VideoQa { transcript, question } => Some((
            model_pro(),
            "Answer the following question about a screen recording, using the transcript below.\nQuestion: "@
                + question@ + "\n\nTranscript:\n"@ + transcript@,
            2048,
        )),
        AiRequestKind::LiveAssistant { message, screen_context } => Some((
            model_flash(),
            "You are Phantom's live AI assistant. The user is currently recording their screen.\nScreen context: "@
                + (match screen_context {
                    Some(c) => c@,
                    None => "(no screen context)"@,
                }) + "\n\nUser says: "@ + message@ + "\nRespond concisely (1–3 sentences max)."@,
            512,
        )),
        _ => None,
    }
}

/// The plan for a summary: the fast model, 1024 tokens.
pub fn summary_plan(transcript: &str) -> (p: GenerationPlan)
    ensures
        p.model@ == model_flash(),
        p.prompt@ == spec_summary_prompt(transcript@),
        p.max_tokens == 1024,
{
    let mut prompt = owned("You are an AI assistant embedded in a screen recording app called Phantom.\nAnalyse the following recording transcript and produce:\n1. A 2–3 sentence TL;DR summary.\n2. 3–5 bullet-point key moments.\n3. A list of action items (tasks, decisions, follow-ups).\n\nTranscript:\n");
    prompt.append(transcript);
    GenerationPlan { model: owned("gemini-2.0-flash"), prompt, max_tokens: 1024 }
}

/// The plan for a generic request, `None` for transcription and summaries.
pub fn generic_plan(kind: &AiRequestKind) -> (p: Option<GenerationPlan>)
    ensures
        match spec_generic_plan(*kind) {
            Some((m, pr, t)) => p matches Some(plan) && plan.model@ == m && plan.prompt@ == pr && plan.max_tokens == t,
            None => p is None,
        },
{
    match kind {
        AiRequestKind::Chapters { transcript } => {
            let mut prompt = owned("Analyse this recording transcript and generate a list of chapters.\nFormat: JSON array of {\"title\": string, \"start_ms\": number}.\n\nTranscript:\n");
            prompt.append(transcript.as_str());
            Some(GenerationPlan { model: owned("gemini-2.5-pro"), prompt, max_tokens: 2048 })
        },
        AiRequestKind::ActionItems { transcript } => {
            let mut prompt = owned("Extract all action items, decisions, and follow-ups from this transcript.\nFormat: JSON array of {\"item\": string, \"owner\": string|null}.\n\nTranscript:\n");
            prompt.append(transcript.as_str());
            Some(GenerationPlan { model: owned("gemini-2.0-flash"), prompt, max_tokens: 1024 })
        },
        AiRequestKind::VideoQa { transcript, question } => {
            let mut prompt = owned("Answer the following question about a screen recording, using the transcript below.\nQuestion: ");
            prompt.append(question.as_str());
            prompt.append("\n\nTranscript:\n");
            prompt.append(transcript.as_str());
            Some(GenerationPlan { model: owned("gemini-2.5-pro"), prompt, max_tokens: 2048 })
        },
        AiRequestKind::LiveAssistant { message, screen_context } => {
            let mut prompt = owned("You are Phantom's live AI assistant. The user is currently recording their screen.\nScreen context: ");
            match screen_context {
                Some(c) => prompt.append(c.as_str()),
                None => prompt.append("(no screen context)"),
            }
            prompt.append("\n\nUser says: ");
            prompt.append(message.as_str());
            prompt.append("\nRespond concisely (1–3 sentences max).");
            Some(GenerationPlan { model: owned("gemini-2.0-flash"), prompt, max_tokens: 512 })
        },
        _ => None,
    }
}

/// The `generateContent` endpoint of `model`, authenticated with `api_key`.
pub fn generate_url(model: &str, api_key: &str) -> (u: String)
    ensures
        u@ == gemini_base() + "/models/"@ + model@ + ":generateContent?key="@ + api_key@,
{
    let mut u = owned("https://generativelanguage.googleapis.com/v1beta");
    u.append("/models/");
    u.append(model);
    u.append(":generateContent?key=");
    u.append(api_key);
    u
}

/// The text is one JSON value, as `serde_json` reads JSON.
pub uninterp spec fn is_json(s: Seq<char>) -> bool;

/// `serde_json::from_str::<serde_json::Value>`, keeping the value when the text
/// is JSON. What the value holds is not stated.
#[verifier::external_body]
fn parse_json_value(text: &str) -> (r: Option<serde_json::Value>)
    ensures
        r is Some <==> is_json(text@),
{
    serde_json::from_str(text).ok()
}

/// A cloud response: the generated text, with its JSON reading when it is JSON.
pub fn cloud_response(text: String, parse_structured: bool) -> (r: AiResponse)
    ensures
        r.backend == AiBackend::GeminiPro,
        r.text@ == text@,
        !parse_structured ==> r.structured is None,
        parse_structured ==> (r.structured is Some <==> is_json(text@)),
{
    let structured = if parse_structured {
        parse_json_value(text.as_str())
    } else {
        None
    };
    AiResponse { backend: AiBackend::GeminiPro, text, structured }
}

/// The number of requests sent before giving up on a rate-limited API.
pub const MAX_ATTEMPTS: u32 = 4;

/// The wait before the first retry, in milliseconds.
pub const FIRST_BACKOFF_MS: u64 = 500;

/// The wait after the `k`-th rate-limited answer: 500 ms, doubling each time.
pub open spec fn backoff_ms(k: nat) -> nat
    decreases k,
{
    if k == 0 {
        FIRST_BACKOFF_MS as nat
    } else {
        2 * backoff_ms((k - 1) as nat)
    }
}

/// The HTTP status of a rate-limited answer ("too many requests").
pub const TOO_MANY_REQUESTS: u16 = 429;

/// What to do with an answer to a generate request.
#[derive(Debug, Clone, Copy, PartialEq, Eq, Structural)]
pub enum ReplyAction {
    /// Rate limited: wait this long, then send again while attempts remain.
    WaitAndRetry { wait_ms: u64 },
    /// Any other client or server error status: the request fails with it.
    Fail { status: u16 },
    /// A successful answer: read the generated text from its body.
    Accept,
}

/// Whether an HTTP status is an error (4xx or 5xx).
pub open spec fn is_error_status(status: u16) -> bool {
    400 <= status <= 599
}

/// The message when every attempt was rate limited.
pub const RATE_LIMITED_MESSAGE: &'static str = "Gemini API request failed after 4 attempts (rate limited)";

/// The generated text of a decoded answer, given the text parts of each
/// candidate in order: the first part of the first candidate, or empty text
/// when there is none.
pub fn first_candidate_text(candidates: Vec<Vec<String>>) -> (t: String)
    ensures
        (candidates@.len() > 0 && candidates@[0]@.len() > 0) ==> t@ == candidates@[0]@[0]@,
        !(candidates@.len() > 0 && candidates@[0]@.len() > 0) ==> t@.len() == 0,
{
    let mut candidates = candidates;
    if candidates.len() > 0 {
        let mut first = candidates.swap_remove(0);
        if first.len() > 0 {
            return first.swap_remove(0);
        }
    }
    String::new()
}

/// The retry schedule of one request: how many attempts were made and how long to
/// wait after the next "too many requests" answer.
pub struct RetrySchedule {
    attempts: u32,
    delay_ms: u64,
}

impl RetrySchedule {
    /// Attempts made so far.
    pub closed spec fn spec_attempts(&self) -> nat {
        self.attempts as nat
    }

    /// The wait after the next rate-limited answer.
    pub closed spec fn spec_delay(&self) -> nat {
        self.delay_ms as nat
    }

    /// Well-formed: at most the allowed attempts, and the wait doubles with each.
    pub closed spec fn wf(&self) -> bool {
        self.attempts <= MAX_ATTEMPTS && self.delay_ms == backoff_ms(self.attempts as nat)
    }

    /// A fresh schedule: no attempt yet, first wait 500 ms.
    pub fn new() -> (s: Self)
        ensures
            s.wf(),
            s.spec_attempts() == 0,
            s.spec_delay() == FIRST_BACKOFF_MS,
    {
        RetrySchedule { attempts: 0, delay_ms: FIRST_BACKOFF_MS }
    }

    /// Whether another request may be sent.
    pub fn may_send(&self) -> (b: bool)
        requires
            self.wf(),
        ensures
            b == (self.spec_attempts() < MAX_ATTEMPTS),
    {
        self.attempts < MAX_ATTEMPTS
    }

    /// Decides what to do with the answer to the latest attempt from its HTTP
    /// status: on "too many requests", count the attempt and wait (the caller
    /// sends again only while `may_send` allows); on any other error status,
    /// fail; otherwise read the answer.
    pub fn on_reply(&mut self, status: u16) -> (a: ReplyAction)
        requires
            old(self).wf(),
            old(self).spec_attempts() < MAX_ATTEMPTS,
        ensures
            final(self).wf(),
            status == TOO_MANY_REQUESTS ==> {
                &&& a == (ReplyAction::WaitAndRetry { wait_ms: backoff_ms(old(self).spec_attempts()) as u64 })
                &&& final(self).spec_attempts() == old(self).spec_attempts() + 1
            },
            status != TOO_MANY_REQUESTS ==> *final(self) == *old(self),
            status != TOO_MANY_REQUESTS && is_error_status(status) ==> a == (ReplyAction::Fail { status }),
            !is_error_status(status) ==> a == ReplyAction::Accept,
    {
        if status == TOO_MANY_REQUESTS {
            let wait_ms = self.rate_limited();
            ReplyAction::WaitAndRetry { wait_ms }
        } else if 400 <= status && status <= 599 {
            ReplyAction::Fail { status }
        } else {
            ReplyAction::Accept
        }
    }

    /// Records a rate-limited answer and returns how long to wait before the next try.
    pub fn rate_limited(&mut self) -> (wait_ms: u64)
        requires
            old(self).wf(),
            old(self).spec_attempts() < MAX_ATTEMPTS,
        ensures
            final(self).wf(),
            wait_ms == old(self).spec_delay(),
            wait_ms == backoff_ms(old(self).spec_attempts()),
            final(self).spec_attempts() == old(self).spec_attempts() + 1,
    {
        proof {
            lemma_backoff_bound(self.attempts as nat);
        }
        let wait = self.delay_ms;
        self.attempts = self.attempts + 1;
        self.delay_ms = self.delay_ms * 2;
        wait
    }
}

/// Waits stay small enough to double: 500 ms times two to the attempt count.
pub proof fn lemma_backoff_bound(k: nat)
    requires
        k <= MAX_ATTEMPTS,
    ensures
        backoff_ms(k) <= 8000,
    decreases k,
{
    if k > 0 {
        lemma_backoff_bound((k - 1) as nat);
        reveal_with_fuel(backoff_ms, 5);
    }
}

/// The waits of a fully rate-limited request are 500, 1000, 2000 and 4000 ms.
pub proof fn lemma_backoff_schedule()
    ensures
        backoff_ms(0) == 500,
        backoff_ms(1) == 1000,
        backoff_ms(2) == 2000,
        backoff_ms(3) == 4000,
{
    reveal_with_fuel(backoff_ms, 4);
}

} // verus!
