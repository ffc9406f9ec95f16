//! Phantom — the verified core of an AI-native screen recorder: billing tiers and
//! entitlements, AI request routing, transcript text processing, editing timelines,
//! share links and update decisions.

pub mod ai;
pub mod billing;
pub mod text;
pub mod ui;
pub mod pipeline;
pub mod voice;
pub mod storage;
pub mod uplink;
