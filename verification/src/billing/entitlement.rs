//! Entitlement rules: which tier is in force and how many AI summaries remain today.
//!
//! The stored row holds the tier name, the time of the last successful
//! verification and the daily AI counter with its reset time. Paid tiers are
//! honoured for seven days after the last verification (the offline grace
//! period); after that the effective tier is Free. The daily counter resets once
//! its reset time has passed, to zero with a new reset time one day later.
//!
//! Instants are nanoseconds since the Unix epoch, UTC.
use vstd::prelude::*;
use crate::billing::tier::{Tier, tier_from_name, spec_daily_ai_limit};
use crate::text::{decimal, owned, u64_to_string};

verus! {

/// Nanoseconds in one second.
pub const NANOS_PER_SEC: i128 = 1_000_000_000;

/// Nanoseconds in one day.
pub const DAY_NANOS: i128 = 86_400_000_000_000;

/// The offline grace period: seven days.
pub const OFFLINE_GRACE_NANOS: i128 = 604_800_000_000_000;

/// The widest instant that a (seconds, nanoseconds) pair of chrono can spell.
pub const INSTANT_BOUND: i128 = 9_300_000_000_000_000_000_000_000_000;

/// The widest instant a stored row may hold: a reading plus a day.
pub const ROW_BOUND: i128 = 10_000_000_000_000_000_000_000_000_000;

/// An instant in the range that chrono's (seconds, nanoseconds) pairs cover.
pub open spec fn valid_instant(x: int) -> bool {
    -INSTANT_BOUND <= x <= INSTANT_BOUND
}

/// The earliest instant chrono's `DateTime<Utc>` holds (January 1, 262144 BCE).
pub const CHRONO_MIN_INSTANT: i128 = -8_334_601_315_200_000_000_000;

/// The latest instant chrono's `DateTime<Utc>` holds (the last nanosecond of
/// December 31, 262142 CE).
pub const CHRONO_MAX_INSTANT: i128 = 8_210_266_876_799_999_999_999;

/// An instant that chrono's `DateTime<Utc>` can hold.
pub open spec fn in_chrono_range(x: int) -> bool {
    CHRONO_MIN_INSTANT <= x <= CHRONO_MAX_INSTANT
}

/// Whether chrono's `DateTime<Utc>` can hold the instant.
pub fn within_chrono_range(x: i128) -> (b: bool)
    ensures
        b == in_chrono_range(x as int),
{
    CHRONO_MIN_INSTANT <= x && x <= CHRONO_MAX_INSTANT
}

/// The first instant of year 0000.
pub const RFC3339_MIN_INSTANT: i128 = -62_167_219_200_000_000_000;

/// The last nanosecond of year 9999.
pub const RFC3339_MAX_INSTANT: i128 = 253_402_300_799_999_999_999;

/// An instant of the years 0000 to 9999, which RFC 3339 writes with four digits
/// (and chrono reads back as written).
pub open spec fn four_digit_year(x: int) -> bool {
    RFC3339_MIN_INSTANT <= x <= RFC3339_MAX_INSTANT
}

/// The instant an RFC 3339 text spells, if chrono reads it.
pub open spec fn spec_instant(s: Seq<char>) -> Option<int> {
    match rfc3339_parse(s) {
        Some((secs, nanos)) => Some(instant_of(secs as int, nanos as int)),
        None => None,
    }
}

/// An instant that a stored row may hold.
pub open spec fn valid_stored(x: int) -> bool {
    -ROW_BOUND <= x <= ROW_BOUND
}

/// The instant at `secs` seconds and `nanos` nanoseconds after the epoch.
pub open spec fn instant_of(secs: int, nanos: int) -> int {
    secs * NANOS_PER_SEC + nanos
}

/// The (seconds, nanoseconds) pair that chrono reads out of an RFC 3339 timestamp
/// text, converted to UTC; `None` where chrono refuses the text.
pub uninterp spec fn rfc3339_parse(s: Seq<char>) -> Option<(i64, u32)>;

/// The RFC 3339 text that chrono writes for the UTC instant at (seconds,
/// nanoseconds); `None` where chrono has no such date.
pub uninterp spec fn rfc3339_text(secs: i64, nanos: u32) -> Option<Seq<char>>;

/// `<DateTime<Utc> as FromStr>::from_str`, read out as `(timestamp(), timestamp_subsec_nanos())`.
#[verifier::external_body]
fn parse_rfc3339(s: &str) -> (r: Option<(i64, u32)>)
    ensures
        r == rfc3339_parse(s@),
{
    s.parse::<chrono::DateTime<chrono::Utc>>().ok().map(|d| (d.timestamp(), d.timestamp_subsec_nanos()))
}

/// `DateTime::<Utc>::from_timestamp(secs, nanos)` written with `to_rfc3339`.
#[verifier::external_body]
fn format_rfc3339(secs: i64, nanos: u32) -> (r: Option<String>)
    ensures
        r matches Some(t) ==> rfc3339_text(secs, nanos) == Some(t@),
        r is None ==> rfc3339_text(secs, nanos) is None,
        nanos < NANOS_PER_SEC && in_chrono_range(instant_of(secs as int, nanos as int)) ==> r is Some,
        nanos < NANOS_PER_SEC && four_digit_year(instant_of(secs as int, nanos as int)) ==>
            (r is Some && rfc3339_parse(r->0@) == Some((secs, nanos))),
{
    chrono::DateTime::<chrono::Utc>::from_timestamp(secs, nanos).map(|d| d.to_rfc3339())
}

/// The instant spelled by chrono's (seconds, nanoseconds) pair.
pub fn instant_from_parts(secs: i64, nanos: u32) -> (x: i128)
    ensures
        x == instant_of(secs as int, nanos as int),
        valid_instant(x as int),
{
    assert(secs * NANOS_PER_SEC <= 9_223_372_036_854_775_807 * 1_000_000_000) by (nonlinear_arith)
        requires secs <= 9_223_372_036_854_775_807;
    assert(secs * NANOS_PER_SEC >= -9_223_372_036_854_775_808 * 1_000_000_000) by (nonlinear_arith)
        requires secs >= -9_223_372_036_854_775_808;
    (secs as i128) * NANOS_PER_SEC + (nanos as i128)
}

/// The (seconds, nanoseconds) pair of an instant that chrono can hold: whole
/// seconds rounded down, and the nanoseconds past them.
pub fn instant_parts(x: i128) -> (r: (i64, u32))
    requires
        in_chrono_range(x as int),
    ensures
        r.0 == x as int / NANOS_PER_SEC as int,
        r.1 == x as int % NANOS_PER_SEC as int,
        r.1 < NANOS_PER_SEC,
        instant_of(r.0 as int, r.1 as int) == x,
{
    let (secs, nanos) = if x >= 0 {
        (x / NANOS_PER_SEC, x % NANOS_PER_SEC)
    } else {
        let y = -x;
        let q = y / NANOS_PER_SEC;
        let m = y % NANOS_PER_SEC;
        if m == 0 {
            (-q, 0)
        } else {
            (-q - 1, NANOS_PER_SEC - m)
        }
    };
    assert(x as int / NANOS_PER_SEC as int == secs && x as int % NANOS_PER_SEC as int == nanos) by (nonlinear_arith)
        requires
            secs * NANOS_PER_SEC + nanos == x,
            0 <= nanos < NANOS_PER_SEC;
    (secs as i64, nanos as u32)
}

/// Reads an RFC 3339 timestamp text as an instant.
pub fn parse_instant(s: &str) -> (r: Option<i128>)
    ensures
        match rfc3339_parse(s@) {
            Some((secs, nanos)) => r == Some(instant_of(secs as int, nanos as int) as i128),
            None => r is None,
        },
        r matches Some(x) ==> valid_instant(x as int),
{
    match parse_rfc3339(s) {
        Some((secs, nanos)) => Some(instant_from_parts(secs, nanos)),
        None => None,
    }
}

/// Writes an instant as RFC 3339 text.
pub fn format_instant(x: i128) -> (r: Option<String>)
    requires
        valid_stored(x as int),
    ensures
        ({
            let secs = x as int / NANOS_PER_SEC as int;
            let nanos = x as int % NANOS_PER_SEC as int;
            &&& instant_of(secs, nanos) == x
            &&& 0 <= nanos < NANOS_PER_SEC
            &&& (secs < i64::MIN || secs > i64::MAX) ==> r is None
            &&& (i64::MIN <= secs <= i64::MAX) ==> match rfc3339_text(secs as i64, nanos as u32) {
                Some(t) => r matches Some(s) && s@ == t,
                None => r is None,
            }
        }),
        in_chrono_range(x as int) ==> r is Some,
        four_digit_year(x as int) ==> (r matches Some(t) && spec_instant(t@) == Some(x as int)),
{
    let (secs, nanos) = if x >= 0 {
        (x / NANOS_PER_SEC, x % NANOS_PER_SEC)
    } else {
        let y = -x;
        let q = y / NANOS_PER_SEC;
        let m = y % NANOS_PER_SEC;
        if m == 0 {
            (-q, 0)
        } else {
            (-q - 1, NANOS_PER_SEC - m)
        }
    };
    assert(x as int / NANOS_PER_SEC as int == secs && x as int % NANOS_PER_SEC as int == nanos) by (nonlinear_arith)
        requires
            secs * NANOS_PER_SEC + nanos == x,
            0 <= nanos < NANOS_PER_SEC;
    if secs < i64::MIN as i128 || secs > i64::MAX as i128 {
        return None;
    }
    format_rfc3339(secs as i64, nanos as u32)
}

/// The stored entitlement row.
pub struct EntitlementRow {
    /// Stored tier name (`free`, `pro`, `team`).
    pub tier: String,
    /// Last successful verification.
    pub verified_at: i128,
    /// AI summaries used in the current window.
    pub daily_ai_count: u32,
    /// When the current window ends.
    pub daily_ai_reset_at: i128,
}

/// Which column of a stored row held an unreadable timestamp.
#[derive(Debug, Clone, Copy, PartialEq, Eq, Structural)]
pub enum RowError {
    /// `verified_at` (column 1).
    VerifiedAt,
    /// `daily_ai_reset_at` (column 3).
    DailyAiResetAt,
}

/// The daily AI allowance is used up.
#[derive(Debug, Clone, Copy, PartialEq, Eq, Structural)]
pub struct DailyLimitReached {
    /// The tier's daily allowance.
    pub limit: u32,
    /// Whole hours until the window resets.
    pub resets_in_hours: u64,
    /// Whole minutes past those hours until the window resets.
    pub resets_in_minutes: u64,
}

impl DailyLimitReached {
    /// The message shown when the allowance is used up.
    pub fn message(&self) -> (s: String)
        ensures
            s@ == "You've used all "@ + decimal(self.limit as nat) + " AI summaries for today (resets in "@
                + decimal(self.resets_in_hours as nat) + "h "@ + decimal(self.resets_in_minutes as nat)
                + "m). Upgrade to Phantom Pro for unlimited AI."@,
    {
        let mut s = owned("You've used all ");
        let l = u64_to_string(self.limit as u64);
        s.append(l.as_str());
        s.append(" AI summaries for today (resets in ");
        let h = u64_to_string(self.resets_in_hours);
        s.append(h.as_str());
        s.append("h ");
        let m = u64_to_string(self.resets_in_minutes);
        s.append(m.as_str());
        s.append("m). Upgrade to Phantom Pro for unlimited AI.");
        s
    }
}

/// The tier in force at `now`: a paid tier last verified more than seven days
/// before `now` counts as Free.
pub open spec fn spec_effective_tier(stored: Seq<char>, verified_at: int, now: int) -> Tier {
    let t = tier_from_name(stored);
    if t != Tier::Free && now - verified_at > OFFLINE_GRACE_NANOS {
        Tier::Free
    } else {
        t
    }
}

/// The counter and reset time in force at `now`: once `now` is past the reset
/// time the counter starts again at zero and the next reset is one day after `now`.
pub open spec fn spec_window(count: int, reset_at: int, now: int) -> (int, int) {
    if now > reset_at {
        (0, now + DAY_NANOS)
    } else {
        (count, reset_at)
    }
}

/// One daily-AI check on the abstract state (count, reset time) at `now` for a
/// tier with allowance `limit`: the state after the check, and whether the use
/// was allowed.
pub open spec fn spec_check(limit: int, count: int, reset_at: int, now: int) -> (int, int, bool) {
    let (c, r) = spec_window(count, reset_at, now);
    if c >= limit {
        (c, r, false)
    } else {
        (c + 1, r, true)
    }
}

/// How many of the checks at the instants `nows`, made one after another from
/// the state (count, reset time), are allowed.
pub open spec fn allowed_in_run(limit: int, count: int, reset_at: int, nows: Seq<int>) -> int
    decreases nows.len(),
{
    if nows.len() == 0 {
        0
    } else {
        let (c, r, ok) = spec_check(limit, count, reset_at, nows[0]);
        (if ok { 1int } else { 0int }) + allowed_in_run(limit, c, r, nows.drop_first())
    }
}

impl EntitlementRow {
    /// Well-formed: both instants lie in chrono's range.
    pub open spec fn wf(&self) -> bool {
        valid_stored(self.verified_at as int) && valid_stored(self.daily_ai_reset_at as int)
    }

    /// Builds a row from the stored column texts, reading both timestamps as RFC 3339.
    pub fn from_columns(tier: String, verified_at: &str, daily_ai_count: u32, daily_ai_reset_at: &str) -> (r: Result<EntitlementRow, RowError>)
        ensures
            match r {
                Ok(row) => {
                    &&& row.wf()
                    &&& row.tier@ == tier@
                    &&& row.daily_ai_count == daily_ai_count
                    &&& rfc3339_parse(verified_at@) matches Some((s, n)) && row.verified_at == instant_of(s as int, n as int)
                    &&& rfc3339_parse(daily_ai_reset_at@) matches Some((s2, n2)) && row.daily_ai_reset_at == instant_of(s2 as int, n2 as int)
                },
                Err(RowError::VerifiedAt) => rfc3339_parse(verified_at@) is None,
                Err(RowError::DailyAiResetAt) => rfc3339_parse(verified_at@) is Some && rfc3339_parse(daily_ai_reset_at@) is None,
            },
    {
        let v = match parse_instant(verified_at) {
            Some(v) => v,
            None => return Err(RowError::VerifiedAt),
        };
        let r = match parse_instant(daily_ai_reset_at) {
            Some(r) => r,
            None => return Err(RowError::DailyAiResetAt),
        };
        Ok(EntitlementRow { tier, verified_at: v, daily_ai_count, daily_ai_reset_at: r })
    }

    /// The tier in force at `now`, applying the offline grace period.
    pub fn effective_tier(&self, now: i128) -> (t: Tier)
        requires
            self.wf(),
            valid_instant(now as int),
        ensures
            t == spec_effective_tier(self.tier@, self.verified_at as int, now as int),
    {
        let tier = Tier::from_str(self.tier.as_str());
        if tier != Tier::Free && now - self.verified_at > OFFLINE_GRACE_NANOS {
            Tier::Free
        } else {
            tier
        }
    }

    /// Checks the daily AI allowance at `now` and, when a use is allowed, counts it.
    /// The allowance is that of the tier in force at `now` (a paid tier past its
    /// offline grace counts as Free). The window is reset first when `now` is past
    /// its reset time. Returns the
    /// number of uses in the window including this one, or the time until reset.
    pub fn check_and_increment_daily_ai(&mut self, now: i128) -> (r: Result<u32, DailyLimitReached>)
        requires
            old(self).wf(),
            valid_instant(now as int),
        ensures
            final(self).wf(),
            final(self).tier == old(self).tier,
            final(self).verified_at == old(self).verified_at,
            ({
                let limit = spec_daily_ai_limit(spec_effective_tier(old(self).tier@, old(self).verified_at as int, now as int)) as int;
                let (c, rs, ok) = spec_check(limit, old(self).daily_ai_count as int, old(self).daily_ai_reset_at as int, now as int);
                &&& final(self).daily_ai_count == c
                &&& final(self).daily_ai_reset_at == rs
                &&& (r is Ok <==> ok)
                &&& r matches Ok(used) ==> used == c
                &&& r matches Err(e) ==> {
                    let secs = (rs - now) / NANOS_PER_SEC as int;
                    &&& e.limit == limit
                    &&& e.resets_in_hours == secs / 3600
                    &&& e.resets_in_minutes == (secs / 60) % 60
                }
            }),
    {
        let tier = self.effective_tier(now);
        let limit = tier.daily_ai_limit();
        if now > self.daily_ai_reset_at {
            self.daily_ai_count = 0;
            self.daily_ai_reset_at = now + DAY_NANOS;
        }
        if self.daily_ai_count >= limit {
            let diff = self.daily_ai_reset_at - now;
            let secs = diff / NANOS_PER_SEC;
            let hours = secs / 3600;
            let minutes = (secs / 60) % 60;
            return Err(DailyLimitReached {
                limit,
                resets_in_hours: hours as u64,
                resets_in_minutes: minutes as u64,
            });
        }
        self.daily_ai_count = self.daily_ai_count + 1;
        Ok(self.daily_ai_count)
    }

    /// The reset time written as RFC 3339 text, as it is stored.
    pub fn reset_at_text(&self) -> (r: Option<String>)
        requires
            self.wf(),
        ensures
            ({
                let x = self.daily_ai_reset_at as int;
                let secs = x / NANOS_PER_SEC as int;
                let nanos = x % NANOS_PER_SEC as int;
                (i64::MIN <= secs <= i64::MAX) ==> match rfc3339_text(secs as i64, nanos as u32) {
                    Some(t) => r matches Some(s) && s@ == t,
                    None => r is None,
                }
            }),
            four_digit_year(self.daily_ai_reset_at as int) ==>
                (r matches Some(t) && spec_instant(t@) == Some(self.daily_ai_reset_at as int)),
    {
        format_instant(self.daily_ai_reset_at)
    }
}

/// A paid tier stays in force through the seven-day grace period after its last
/// verification and lapses to Free after it; the free tier is never upgraded by time.
pub proof fn lemma_offline_grace(stored: Seq<char>, verified_at: int, now: int)
    ensures
        tier_from_name(stored) == Tier::Free ==> spec_effective_tier(stored, verified_at, now) == Tier::Free,
        now - verified_at <= OFFLINE_GRACE_NANOS ==> spec_effective_tier(stored, verified_at, now) == tier_from_name(stored),
        now - verified_at > OFFLINE_GRACE_NANOS ==> spec_effective_tier(stored, verified_at, now) == Tier::Free,
{
}

/// Within one window (every check at or before the reset time), a run of checks
/// allows at most as many uses as the allowance has left.
pub proof fn lemma_daily_cap_within_window(limit: int, count: int, reset_at: int, nows: Seq<int>)
    requires
        0 <= count <= limit,
        forall|i: int| 0 <= i < nows.len() ==> nows[i] <= reset_at,
    ensures
        allowed_in_run(limit, count, reset_at, nows) <= limit - count,
    decreases nows.len(),
{
    if nows.len() > 0 {
        let (c, r, ok) = spec_check(limit, count, reset_at, nows[0]);
        assert(r == reset_at);
        lemma_daily_cap_within_window(limit, c, r, nows.drop_first());
    }
}

/// The free tier allows at most three AI summaries in any one window.
pub proof fn lemma_free_tier_three_per_window(count: int, reset_at: int, nows: Seq<int>)
    requires
        0 <= count,
        forall|i: int| 0 <= i < nows.len() ==> nows[i] <= reset_at,
    ensures
        allowed_in_run(spec_daily_ai_limit(Tier::Free) as int, count, reset_at, nows) <= 3,
    decreases nows.len(),
{
    if count <= 3 {
        lemma_daily_cap_within_window(3, count, reset_at, nows);
    } else if nows.len() > 0 {
        let (c, r, ok) = spec_check(3, count, reset_at, nows[0]);
        assert(!ok && c == count && r == reset_at);
        lemma_free_tier_three_per_window(c, r, nows.drop_first());
    }
}

/// Past the offline grace period every row has the free allowance of three uses
/// a day, whatever tier it stores.
pub proof fn lemma_lapsed_row_has_free_allowance(stored: Seq<char>, verified_at: int, now: int)
    requires
        now - verified_at > OFFLINE_GRACE_NANOS,
    ensures
        spec_daily_ai_limit(spec_effective_tier(stored, verified_at, now)) == 3,
{
}

/// Once the reset time has passed, the next check is allowed (the window starts
/// again at zero, and every allowance is at least one).
pub proof fn lemma_reset_allows(tier: Tier, count: int, reset_at: int, now: int)
    requires
        now > reset_at,
    ensures
        spec_check(spec_daily_ai_limit(tier) as int, count, reset_at, now).2,
        spec_check(spec_daily_ai_limit(tier) as int, count, reset_at, now).0 == 1,
{
}

} // verus!
