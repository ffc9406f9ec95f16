//! The AI tier router: decides which backend serves a request.
//!
//! Free tier: summaries run on-device (Gemini Nano), capped per day; every other
//! generative feature needs a paid tier. Paid tiers: summaries and all generative
//! features go to the Gemini API. Transcription always runs on local Whisper.
use vstd::prelude::*;
use crate::billing::tier::Tier;

verus! {

/// `serde_json::Value`: structured data carried through unread.
#[verifier::external_type_specification]
#[verifier::external_body]
pub struct ExJsonValue(serde_json::Value);

/// A request to the AI tier router.
pub enum AiRequestKind {
    /// Transcribe audio at the given path.
    Transcribe { audio_path: String },
    /// Summarise a recording.
    Summarise { transcript: String },
    /// Generate chapter markers from a transcript.
    Chapters { transcript: String },
    /// Extract action items from a transcript.
    ActionItems { transcript: String },
    /// Answer a question about a video.
    VideoQa { transcript: String, question: String },
    /// Send a message to the live assistant.
    LiveAssistant { message: String, screen_context: Option<String> },
}

/// Which backend ran a request.
#[derive(Debug, Clone, Copy, PartialEq, Eq, Structural)]
pub enum AiBackend {
    /// Locally on-device via Gemini Nano.
    GeminiNano,
    /// Against the Gemini Pro API.
    GeminiPro,
    /// Locally via Whisper (transcription only).
    WhisperLocal,
}

/// The AI response returned to callers.
pub struct AiResponse {
    /// Which backend actually ran this request.
    pub backend: AiBackend,
    /// The text result.
    pub text: String,
    /// Structured data for chapter/action-item responses.
    pub structured: Option<serde_json::Value>,
}

/// Where a request goes.
#[derive(Debug, Clone, Copy, PartialEq, Eq, Structural)]
pub enum Route {
    /// Local Whisper transcription.
    LocalWhisper,
    /// On-device summary, after the daily allowance check.
    NanoWithDailyCap,
    /// Cloud summary.
    GeminiSummary,
    /// Cloud generation for chapters, action items, Q&A and the live assistant.
    GeminiGeneric,
    /// Refused: the feature needs a paid tier.
    ProRequired,
}

/// The route of a request of kind `kind` for a user on tier `tier`.
pub open spec fn spec_route(tier: Tier, kind: AiRequestKind) -> Route {
    match kind {
        AiRequestKind::Transcribe { .. } => Route::LocalWhisper,
        AiRequestKind::Summarise { .. } => if tier == Tier::Free {
            Route::NanoWithDailyCap
        } else {
            Route::GeminiSummary
        },
        _ => if tier == Tier::Free {
            Route::ProRequired
        } else {
            Route::GeminiGeneric
        },
    }
}

/// Decides where a request of kind `kind` goes for a user on tier `tier`.
pub fn route(tier: Tier, kind: &AiRequestKind) -> (r: Route)
    ensures
        r == spec_route(tier, *kind),
{
    match kind {
        AiRequestKind::Transcribe { .. } => Route::LocalWhisper,
        AiRequestKind::Summarise { .. } => {
            if tier == Tier::Free {
                Route::NanoWithDailyCap
            } else {
                Route::GeminiSummary
            }
        },
        _ => {
            if tier == Tier::Free {
                Route::ProRequired
            } else {
                Route::GeminiGeneric
            }
        },
    }
}

/// The refusal a free user gets for a paid feature.
pub fn pro_required_message() -> (s: String)
    ensures
        s@ == "This feature requires a Phantom Pro subscription. Upgrade at https://phantom.app/upgrade"@,
{
    crate::text::owned("This feature requires a Phantom Pro subscription. Upgrade at https://phantom.app/upgrade")
}

/// Free users never reach the cloud backend, and only their summaries are
/// counted against the daily allowance.
pub proof fn lemma_free_tier_stays_local(kind: AiRequestKind)
    ensures
        spec_route(Tier::Free, kind) != Route::GeminiSummary,
        spec_route(Tier::Free, kind) != Route::GeminiGeneric,
        (kind is Summarise) <==> spec_route(Tier::Free, kind) == Route::NanoWithDailyCap,
{
}

/// Paid users are never refused and never counted against the daily allowance.
pub proof fn lemma_paid_tier_unrestricted(tier: Tier, kind: AiRequestKind)
    requires
        tier != Tier::Free,
    ensures
        spec_route(tier, kind) != Route::ProRequired,
        spec_route(tier, kind) != Route::NanoWithDailyCap,
{
}

/// Transcription runs on local Whisper whatever the tier.
pub proof fn lemma_transcription_always_local(tier: Tier, kind: AiRequestKind)
    requires
        kind is Transcribe,
    ensures
        spec_route(tier, kind) == Route::LocalWhisper,
{
}

} // verus!
