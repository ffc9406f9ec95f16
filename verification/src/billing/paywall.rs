//! Paywall prompts: the soft gate shown when a user reaches a Pro feature or the
//! daily AI limit.
use vstd::prelude::*;
use crate::text::owned;

verus! {

/// The state of an upgrade prompt.
pub struct PaywallState {
    pub is_visible: bool,
    pub title: String,
    pub description: String,
    pub feature_name: String,
}

impl Default for PaywallState {
    /// A hidden prompt with the generic Pro pitch.
    fn default() -> (p: Self)
        ensures
            !p.is_visible,
            p.title@ == "Upgrade to Phantom Pro"@,
            p.description@ == "Get unlimited AI summaries, smart chapters, and priority processing."@,
            p.feature_name@ == "Pro Features"@,
    {
        PaywallState {
            is_visible: false,
            title: owned("Upgrade to Phantom Pro"),
            description: owned("Get unlimited AI summaries, smart chapters, and priority processing."),
            feature_name: owned("Pro Features"),
        }
    }
}

impl PaywallState {
    /// A visible prompt for one locked feature.
    pub fn for_feature(feature_name: &str, description: &str) -> (p: Self)
        ensures
            p.is_visible,
            p.title@ == "Upgrade to Phantom Pro"@,
            p.description@ == description@,
            p.feature_name@ == feature_name@,
    {
        PaywallState {
            is_visible: true,
            title: owned("Upgrade to Phantom Pro"),
            description: owned(description),
            feature_name: owned(feature_name),
        }
    }

    /// A visible prompt for when the free daily summaries are used up.
    pub fn daily_limit_reached() -> (p: Self)
        ensures
            p.is_visible,
            p.title@ == "Daily Limit Reached"@,
            p.description@ == "You've used all 3 of your free daily AI summaries. Upgrade to Pro for unlimited on-device and cloud intelligence."@,
            p.feature_name@ == "Unlimited Summaries"@,
    {
        PaywallState {
            is_visible: true,
            title: owned("Daily Limit Reached"),
            description: owned("You've used all 3 of your free daily AI summaries. Upgrade to Pro for unlimited on-device and cloud intelligence."),
            feature_name: owned("Unlimited Summaries"),
        }
    }

    /// Hides the prompt, keeping its texts.
    pub fn dismiss(&mut self)
        ensures
            !final(self).is_visible,
            final(self).title == old(self).title,
            final(self).description == old(self).description,
            final(self).feature_name == old(self).feature_name,
    {
        self.is_visible = false;
    }
}

} // verus!
