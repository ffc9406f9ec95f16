//! Payload types carried on the event bus.
use vstd::prelude::*;

verus! {

/// Billing tier carried in entitlement events.
#[derive(Debug, Clone, Copy, PartialEq, Eq, Structural)]
pub enum Tier {
    Free,
    Pro,
    Team,
}

/// What kind of AI result was produced.
pub enum AiResultKind {
    Transcript,
    Summary,
    Chapters,
    ActionItems,
    VideoQa { question: String },
    LiveAssistant { response: String },
}

} // verus!
