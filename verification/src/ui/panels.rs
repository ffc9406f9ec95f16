//! What the library, new-recording, settings and share panels show and decide:
//! entry labels, the duration limit, status lines, and the share link of a
//! locally served copy.
use vstd::prelude::*;
use crate::billing::entitlement::{in_chrono_range, DAY_NANOS};
use crate::billing::tier::Tier;
use crate::text::{chars_of, decimal, owned, push_char, u64_to_string};
use crate::ui::overlay::two_digits;
use crate::ui::share_panel::random_uuid_value;

verus! {

// ─── Library ────────────────────────────────────────────────────────────────

/// A recording's length: minutes, a colon, then seconds with two digits.
pub fn duration_label(duration_secs: u64) -> (s: String)
    ensures
        s@ == decimal((duration_secs / 60) as nat) + ":"@ + two_digits((duration_secs % 60) as nat),
{
    let mut s = u64_to_string(duration_secs / 60);
    s.append(":");
    let sec = duration_secs % 60;
    if sec < 10 {
        s.append("0");
    }
    let d = u64_to_string(sec);
    s.append(d.as_str());
    proof {
        assert(s@ =~= decimal((duration_secs / 60) as nat) + ":"@ + two_digits((duration_secs % 60) as nat));
    }
    s
}

/// How many characters of a summary a library entry shows.
pub const TEASER_CHARS: usize = 100;

/// The library's summary line: a bulb, the summary's first hundred characters,
/// then an ellipsis.
pub open spec fn spec_summary_teaser(summary: Seq<char>) -> Seq<char> {
    "💡 "@ + summary.take(if summary.len() < TEASER_CHARS { summary.len() as int } else { TEASER_CHARS as int }) + "…"@
}

/// The library's summary line for a recording's summary.
pub fn summary_teaser(summary: &str) -> (s: String)
    ensures
        s@ == spec_summary_teaser(summary@),
{
    let cs = chars_of(summary);
    let n: usize = if cs.len() < TEASER_CHARS { cs.len() } else { TEASER_CHARS };
    let mut s = owned("💡 ");
    let ghost head = s@;
    let mut i: usize = 0;
    while i < n
        invariant
            i <= n <= cs@.len(),
            cs@ == summary@,
            s@ == head + cs@.take(i as int),
        decreases n - i,
    {
        push_char(&mut s, cs[i]);
        assert(cs@.take(i + 1) =~= cs@.take(i as int).push(cs@[i as int]));
        i = i + 1;
    }
    s.append("…");
    s
}

/// The library's tag chips: each tag behind a `#`.
pub fn tag_labels(tags: &Vec<String>) -> (r: Vec<String>)
    ensures
        r@.len() == tags@.len(),
        forall|i: int| 0 <= i < tags@.len() ==> (#[trigger] r@[i])@ == "#"@ + tags@[i]@,
{
    let mut r: Vec<String> = Vec::new();
    let mut i: usize = 0;
    while i < tags.len()
        invariant
            i <= tags@.len(),
            r@.len() == i,
            forall|k: int| 0 <= k < i ==> (#[trigger] r@[k])@ == "#"@ + tags@[k]@,
        decreases tags@.len() - i,
    {
        let mut t = owned("#");
        t.append(tags[i].as_str());
        r.push(t);
        i = i + 1;
    }
    r
}

// ─── New recording ──────────────────────────────────────────────────────────

/// The duration limit offered when the limit is switched on (five minutes).
pub const DEFAULT_DURATION_LIMIT_SECS: u64 = 300;

/// The shortest duration limit that can be set.
pub const MIN_DURATION_LIMIT_SECS: u64 = 30;

/// The longest duration limit that can be set (an hour).
pub const MAX_DURATION_LIMIT_SECS: u64 = 3600;

/// The duration limit after its checkbox is set: five minutes when on, none
/// when off.
pub fn duration_limit_for(limited: bool) -> (r: Option<u64>)
    ensures
        r == if limited { Some(DEFAULT_DURATION_LIMIT_SECS) } else { None::<u64> },
{
    if limited { Some(DEFAULT_DURATION_LIMIT_SECS) } else { None }
}

/// A duration limit brought into the range the limit field allows.
pub fn clamp_duration_limit(secs: u64) -> (r: u64)
    ensures
        MIN_DURATION_LIMIT_SECS <= r <= MAX_DURATION_LIMIT_SECS,
        r == if secs < MIN_DURATION_LIMIT_SECS {
            MIN_DURATION_LIMIT_SECS
        } else if secs > MAX_DURATION_LIMIT_SECS {
            MAX_DURATION_LIMIT_SECS
        } else {
            secs
        },
{
    if secs < MIN_DURATION_LIMIT_SECS {
        MIN_DURATION_LIMIT_SECS
    } else if secs > MAX_DURATION_LIMIT_SECS {
        MAX_DURATION_LIMIT_SECS
    } else {
        secs
    }
}

/// The status line once a recording has started: its title in quotes, then an
/// ellipsis.
pub fn recording_started_status(title: &str) -> (s: String)
    ensures
        s@ == "Recording \""@ + title@ + "\"…"@,
{
    let mut s = owned("Recording \"");
    s.append(title);
    s.append("\"…");
    s
}

// ─── Settings ───────────────────────────────────────────────────────────────

/// The status line after the settings are saved, which depends on whether a
/// Gemini key was given.
pub fn settings_saved_status(gemini_api_key: &str) -> (s: &'static str)
    ensures
        s@ == if gemini_api_key@.len() == 0 {
            "Settings saved. Add a Gemini API key to use cloud AI features."@
        } else {
            "Settings saved. Gemini AI is now active!"@
        },
{
    if gemini_api_key.is_empty() {
        "Settings saved. Add a Gemini API key to use cloud AI features."
    } else {
        "Settings saved. Gemini AI is now active!"
    }
}

/// The note beside the save button: whether a Gemini key is configured.
pub fn api_key_note(gemini_api_key: &str) -> (s: &'static str)
    ensures
        s@ == if gemini_api_key@.len() == 0 {
            "⚠ No key — Free tier only (local AI)"@
        } else {
            "✅ Key configured"@
        },
{
    if gemini_api_key.is_empty() {
        "⚠ No key — Free tier only (local AI)"
    } else {
        "✅ Key configured"
    }
}

/// The label of a tier in the tier picker, with its monthly price.
pub fn tier_choice_label(tier: Tier) -> (s: &'static str)
    ensures
        s@ == match tier {
            Tier::Free => "Free"@,
            Tier::Pro => "Pro ($15/mo)"@,
            Tier::Team => "Team ($49/mo)"@,
        },
{
    match tier {
        Tier::Free => "Free",
        Tier::Pro => "Pro ($15/mo)",
        Tier::Team => "Team ($49/mo)",
    }
}

/// The free tier's usage line: uses so far out of three, and when they reset.
pub fn daily_usage_line(daily_ai_used: u32) -> (s: String)
    ensures
        s@ == "AI uses today: "@ + decimal(daily_ai_used as nat) + "/3 (resets midnight UTC)"@,
{
    let mut s = owned("AI uses today: ");
    let n = u64_to_string(daily_ai_used as u64);
    s.append(n.as_str());
    s.append("/3 (resets midnight UTC)");
    s
}

// ─── Share ──────────────────────────────────────────────────────────────────

/// What the share panel names when no recording is selected.
pub const NO_RECORDING_SELECTED: &'static str = "(no recording selected)";

/// The recording the share panel works on: the selected index, where it names
/// an entry of the library.
pub open spec fn spec_share_target(library_len: nat, selected: Option<usize>) -> Option<usize> {
    match selected {
        Some(i) => if i < library_len { Some(i) } else { None },
        None => None,
    }
}

/// The library index the share panel works on.
pub fn share_target(library_len: usize, selected: Option<usize>) -> (r: Option<usize>)
    ensures
        r == spec_share_target(library_len as nat, selected),
{
    match selected {
        Some(i) => if i < library_len { Some(i) } else { None },
        None => None,
    }
}

/// The name the share panel shows for its target.
pub fn share_target_name(titles: &Vec<String>, selected: Option<usize>) -> (s: String)
    ensures
        s@ == match spec_share_target(titles@.len(), selected) {
            Some(i) => titles@[i as int]@,
            None => NO_RECORDING_SELECTED@,
        },
{
    match share_target(titles.len(), selected) {
        Some(i) => titles[i].clone(),
        None => owned(NO_RECORDING_SELECTED),
    }
}

/// The hex digit of a value below 16, lowercase.
pub open spec fn lower_hex_digit(d: int) -> char {
    if d < 10 { (d + 48) as char } else { (d + 87) as char }
}

/// The last `width` hex digits of `n`, most significant first, with leading
/// zeros.
pub open spec fn hex_fixed(n: nat, width: nat) -> Seq<char>
    decreases width,
{
    if width == 0 {
        Seq::empty()
    } else {
        hex_fixed(n / 16, (width - 1) as nat).push(lower_hex_digit((n % 16) as int))
    }
}

/// How many characters of the UUID a locally served copy's token keeps.
pub const LOCAL_TOKEN_CHARS: usize = 12;

/// A locally served copy's token: the first twelve of the 32 hex digits of a
/// UUID's value (its hyphenated text with the hyphens taken out).
pub open spec fn spec_local_token(uuid_value: u128) -> Seq<char> {
    hex_fixed(uuid_value as nat, 32).take(LOCAL_TOKEN_CHARS as int)
}

fn lower_hex_char(d: u128) -> (c: char)
    requires
        d < 16,
    ensures
        c == lower_hex_digit(d as int),
{
    if d < 10 {
        (d as u8 + 48) as char
    } else {
        (d as u8 + 87) as char
    }
}

/// The local token of a UUID value.
pub fn local_token(uuid_value: u128) -> (s: String)
    ensures
        s@ == spec_local_token(uuid_value),
{
    // The 32 digits, least significant first.
    let mut digits: Vec<char> = Vec::new();
    let mut m: u128 = uuid_value;
    let mut k: usize = 0;
    assert(hex_fixed(uuid_value as nat, 32) =~= hex_fixed(m as nat, 32) + digits@.reverse());
    while k < 32
        invariant
            k <= 32,
            digits@.len() == k,
            hex_fixed(uuid_value as nat, 32) == hex_fixed(m as nat, (32 - k) as nat) + digits@.reverse(),
        decreases 32 - k,
    {
        let d = m % 16;
        let ghost old_digits = digits@;
        digits.push(lower_hex_char(d));
        proof {
            assert(hex_fixed(m as nat, (32 - k) as nat) == hex_fixed((m / 16) as nat, (32 - k - 1) as nat).push(lower_hex_digit(d as int)));
            assert(digits@.reverse() =~= seq![lower_hex_digit(d as int)] + old_digits.reverse());
            assert(hex_fixed(uuid_value as nat, 32) =~= hex_fixed((m / 16) as nat, (32 - k - 1) as nat) + digits@.reverse());
        }
        m = m / 16;
        k = k + 1;
    }
    assert(hex_fixed(m as nat, 0) =~= Seq::<char>::empty());
    assert(hex_fixed(uuid_value as nat, 32) =~= digits@.reverse());
    let mut s = String::new();
    let mut i: usize = 32;
    while i > 32 - LOCAL_TOKEN_CHARS
        invariant
            32 - LOCAL_TOKEN_CHARS <= i <= 32,
            digits@.len() == 32,
            s@ == digits@.reverse().take(32 - i),
        decreases i,
    {
        i = i - 1;
        push_char(&mut s, digits[i]);
        assert(digits@.reverse().take(32 - i) =~= digits@.reverse().take(32 - i - 1).push(digits@[i as int]));
    }
    s
}

/// A fresh token for a locally served copy: the local token of a random UUID.
pub fn new_local_token() -> (s: String)
    ensures
        exists|n: u128| s@ == spec_local_token(n),
{
    let n = random_uuid_value();
    local_token(n)
}

/// The address at which the local web server plays a copy.
pub open spec fn spec_local_share_url(token: Seq<char>) -> Seq<char> {
    "http://localhost:3000/recordings/"@ + token + ".mp4"@
}

/// The address at which the local web server plays the copy saved under `token`.
pub fn local_share_url(token: &str) -> (s: String)
    ensures
        s@ == spec_local_share_url(token@),
{
    let mut s = owned("http://localhost:3000/recordings/");
    s.append(token);
    s.append(".mp4");
    s
}

/// Whether a link made from the panel lets viewers download: only when the
/// download box is ticked on a paid tier.
pub fn link_download_enabled(allow_download: bool, tier: Tier) -> (b: bool)
    ensures
        b == (allow_download && !(tier is Free)),
{
    allow_download && tier.is_paid()
}

/// The expiry stored with a link made from the panel: `days` after `now` on
/// a paid tier, none on the free tier (instants in nanoseconds).
pub open spec fn spec_panel_expiry(tier: Tier, now: int, days: u32) -> Option<int> {
    if tier is Free { None } else { Some(now + days * DAY_NANOS) }
}

/// The expiry of a link made from the panel.
pub fn panel_expiry(tier: Tier, now: i128, days: u32) -> (r: Option<i128>)
    requires
        in_chrono_range(now as int),
        spec_panel_expiry(tier, now as int, days) matches Some(e) ==> in_chrono_range(e),
    ensures
        r == match spec_panel_expiry(tier, now as int, days) {
            Some(e) => Some(e as i128),
            None => None::<i128>,
        },
{
    match tier {
        Tier::Free => None,
        _ => Some(now + days as i128 * DAY_NANOS),
    }
}

/// The status line after a link is made: whether the copy reached the web
/// server's folder, or else where the file is.
pub fn share_made_status(copied: bool, file_path: &str) -> (s: String)
    ensures
        s@ == if copied {
            "Share link generated and file copied to web server!"@
        } else {
            "Share link generated (file at: "@ + file_path@ + ")"@
        },
{
    if copied {
        owned("Share link generated and file copied to web server!")
    } else {
        let mut s = owned("Share link generated (file at: ");
        s.append(file_path);
        s.append(")");
        s
    }
}

/// The notes under a link: download and password where set on a paid tier,
/// then custom expiry on a paid tier or view-only on the free one.
pub open spec fn spec_share_notes(allow_download: bool, use_password: bool, tier: Tier) -> Seq<Seq<char>> {
    let paid = !(tier is Free);
    (if allow_download && paid { seq!["📥 Download enabled"@] } else { Seq::empty() })
        + (if use_password && paid { seq!["🔑 Password protected"@] } else { Seq::empty() })
        + (if paid { seq!["⏰ Custom expiry"@] } else { seq!["⚡ Free: view-only"@] })
}

/// The notes shown under a generated link.
pub fn share_notes(allow_download: bool, use_password: bool, tier: Tier) -> (r: Vec<&'static str>)
    ensures
        r@.len() == spec_share_notes(allow_download, use_password, tier).len(),
        forall|i: int| 0 <= i < r@.len() ==> (#[trigger] r@[i])@ == spec_share_notes(allow_download, use_password, tier)[i],
{
    let paid = tier.is_paid();
    let mut r: Vec<&'static str> = Vec::new();
    let ghost a: Seq<Seq<char>> = if allow_download && paid { seq!["📥 Download enabled"@] } else { Seq::empty() };
    let ghost b: Seq<Seq<char>> = if use_password && paid { seq!["🔑 Password protected"@] } else { Seq::empty() };
    if allow_download && paid {
        r.push("📥 Download enabled");
    }
    if use_password && paid {
        r.push("🔑 Password protected");
    }
    if paid {
        r.push("⏰ Custom expiry");
    } else {
        r.push("⚡ Free: view-only");
    }
    proof {
        let want = spec_share_notes(allow_download, use_password, tier);
        assert(want =~= a + b + (if paid { seq!["⏰ Custom expiry"@] } else { seq!["⚡ Free: view-only"@] }));
        assert(r@.len() == want.len());
        assert forall|i: int| 0 <= i < r@.len() implies (#[trigger] r@[i])@ == want[i] by {
        }
    }
    r
}

} // verus!
