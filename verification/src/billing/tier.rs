//! Billing tiers and their daily AI allowances.
use vstd::prelude::*;
use crate::text::str_eq;

verus! {

/// Billing tier.
#[derive(Debug, Clone, Copy, PartialEq, Eq, Structural)]
pub enum Tier {
    Free,
    Pro,
    Team,
}

/// The stored name of each tier.
pub open spec fn tier_name(t: Tier) -> Seq<char> {
    match t {
        Tier::Free => "free"@,
        Tier::Pro => "pro"@,
        Tier::Team => "team"@,
    }
}

/// The tier a stored name stands for: "pro" and "team" name the paid tiers,
/// every other text falls back to the free tier.
pub open spec fn tier_from_name(s: Seq<char>) -> Tier {
    if s == "pro"@ {
        Tier::Pro
    } else if s == "team"@ {
        Tier::Team
    } else {
        Tier::Free
    }
}

/// Daily AI allowance: three on the free tier, unbounded (`u32::MAX`) on the paid tiers.
pub open spec fn spec_daily_ai_limit(t: Tier) -> u32 {
    match t {
        Tier::Free => 3,
        Tier::Pro | Tier::Team => u32::MAX,
    }
}

impl Tier {
    /// The tier a stored name stands for; unknown names mean the free tier.
    pub fn from_str(s: &str) -> (t: Tier)
        ensures
            t == tier_from_name(s@),
    {
        if str_eq(s, "pro") {
            Tier::Pro
        } else if str_eq(s, "team") {
            Tier::Team
        } else {
            Tier::Free
        }
    }

    /// The stored name of this tier.
    pub fn as_str(&self) -> (s: &'static str)
        ensures
            s@ == tier_name(*self),
    {
        match self {
            Tier::Free => "free",
            Tier::Pro => "pro",
            Tier::Team => "team",
        }
    }

    /// How many AI summaries this tier may run per day.
    pub fn daily_ai_limit(&self) -> (n: u32)
        ensures
            n == spec_daily_ai_limit(*self),
    {
        match self {
            Tier::Free => 3,
            Tier::Pro | Tier::Team => u32::MAX,
        }
    }

    /// Whether this is a paid tier (Pro or Team).
    pub fn is_paid(&self) -> (b: bool)
        ensures
            b == (*self != Tier::Free),
    {
        match self {
            Tier::Free => false,
            _ => true,
        }
    }
}

/// A tier's stored name reads back as the same tier.
pub proof fn lemma_tier_name_round_trip(t: Tier)
    ensures
        tier_from_name(tier_name(t)) == t,
{
    reveal_strlit("free");
    reveal_strlit("pro");
    reveal_strlit("team");
    assert("free"@.len() == 4 && "pro"@.len() == 3 && "team"@.len() == 4);
    assert("free"@[0] != "team"@[0]);
}

/// Only the free tier has a finite daily AI allowance; paid tiers are unbounded.
pub proof fn lemma_only_free_tier_is_capped(t: Tier)
    ensures
        spec_daily_ai_limit(t) < u32::MAX <==> t == Tier::Free,
{
}

} // verus!
