//! Billing: tiers, entitlement rules and paywall prompts.
pub mod entitlement;
pub mod paywall;
pub mod stripe;
pub mod tier;
