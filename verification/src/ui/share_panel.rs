//! The share panel's state: the options being configured (download, password and
//! expiry are offered on Pro only) and the generated link.
use vstd::prelude::*;
use crate::text::{owned, push_char};
use vstd::utf8::is_ascii_chars;

verus! {

/// Options for sharing a recording (the recording id is a UUID in its
/// hyphenated text form).
pub struct ShareOptions {
    pub recording_id: String,
    pub enable_download: bool,
    pub password: Option<String>,
    pub expires_in_days: Option<u32>,
}

/// The share panel.
pub struct SharePanel {
    /// The generated link, once there is one.
    pub share_link: Option<String>,
    /// The options being configured.
    pub options: ShareOptions,
    /// The password field (raw, not hashed).
    pub password_input: String,
    pub password_enabled: bool,
    pub expiry_enabled: bool,
    pub expiry_days: u32,
    /// Status message.
    pub status: String,
    /// Whether the user is Pro.
    pub is_pro: bool,
}

/// Where generated links point.
pub const SHARE_BASE: &'static str = "https://phantom.app/s/";

/// The lowercase hex digit of a value below 16.
pub open spec fn hex_char(d: int) -> char {
    if d < 10 { (d + 48) as char } else { (d + 87) as char }
}

/// `n` in lowercase hexadecimal without leading zeros (`format!("{:x}", n)`).
pub open spec fn hex_of(n: nat) -> Seq<char>
    decreases n,
{
    if n < 16 {
        seq![hex_char(n as int)]
    } else {
        hex_of(n / 16) + seq![hex_char((n % 16) as int)]
    }
}

/// `uuid::Uuid::new_v4().as_u128()`: a random value, of which nothing is stated.
#[verifier::external_body]
pub(crate) fn random_uuid_value() -> (n: u128) {
    uuid::Uuid::new_v4().as_u128()
}

fn hex_digit_char(d: u128) -> (c: char)
    requires
        d < 16,
    ensures
        c == hex_char(d as int),
{
    if d < 10 {
        (d as u8 + 48) as char
    } else {
        (d as u8 + 87) as char
    }
}

/// `n` in lowercase hexadecimal without leading zeros.
pub fn hex_u128(n: u128) -> (s: String)
    ensures
        s@ == hex_of(n as nat),
{
    // The digits found so far, least significant first.
    let mut digits: Vec<char> = Vec::new();
    let mut m: u128 = n;
    assert(hex_of(n as nat) =~= hex_of(m as nat) + digits@.reverse());
    while m >= 16
        invariant
            hex_of(n as nat) == hex_of(m as nat) + digits@.reverse(),
        decreases m,
    {
        let d = m % 16;
        let ghost old_digits = digits@;
        digits.push(hex_digit_char(d));
        proof {
            assert(hex_of(m as nat) == hex_of((m / 16) as nat) + seq![hex_char(d as int)]);
            assert(digits@.reverse() =~= seq![hex_char(d as int)] + old_digits.reverse());
            assert(hex_of(n as nat) =~= hex_of((m / 16) as nat) + digits@.reverse());
        }
        m = m / 16;
    }
    let ghost old_digits = digits@;
    digits.push(hex_digit_char(m));
    proof {
        assert(hex_of(m as nat) == seq![hex_char(m as int)]);
        assert(digits@.reverse() =~= seq![hex_char(m as int)] + old_digits.reverse());
    }
    let mut s = String::new();
    let mut i: usize = digits.len();
    assert(hex_of(n as nat) == digits@.reverse());
    while i > 0
        invariant
            i <= digits@.len(),
            s@ == digits@.reverse().take(digits@.len() - i),
        decreases i,
    {
        i = i - 1;
        push_char(&mut s, digits[i]);
        assert(digits@.reverse().take(digits@.len() - i) =~= digits@.reverse().take(digits@.len() - i - 1).push(digits@[i as int]));
    }
    assert(digits@.reverse().take(digits@.len() as int) =~= digits@.reverse());
    s
}

/// The link for a token value: the share base, then the value in hex.
pub open spec fn spec_share_link(n: u128) -> Seq<char> {
    SHARE_BASE@ + hex_of(n as nat)
}

/// The dark (`true`) and light modules, row by row from the top, of the QR code
/// that `qrcodegen` makes of a text at medium error correction; `None` where the
/// text does not fit in any QR code version.
pub uninterp spec fn qr_modules(text: Seq<char>) -> Option<Seq<Seq<bool>>>;

/// The rows of a module grid.
pub open spec fn grid_rows(g: Seq<Vec<bool>>) -> Seq<Seq<bool>> {
    g.map_values(|row: Vec<bool>| row@)
}

/// The longest ASCII text whose QR code is sure to exist at medium error
/// correction (far below the 2331 bytes that the largest version holds).
pub const QR_TEXT_LIMIT: usize = 738;

/// `qrcodegen::QrCode::encode_text(text, QrCodeEcc::Medium)`, read out with
/// `get_module` row by row. A code is square, with a side of 21 to 177
/// modules; an ASCII text of at most 738 characters always fits.
#[verifier::external_body]
fn encode_qr(text: &str) -> (r: Option<Vec<Vec<bool>>>)
    ensures
        match qr_modules(text@) {
            Some(g) => r matches Some(v) && grid_rows(v@) == g,
            None => r is None,
        },
        r matches Some(v) ==> 21 <= v@.len() <= 177 && forall|i: int| 0 <= i < v@.len() ==> (#[trigger] v@[i])@.len() == v@.len(),
        text@.len() <= QR_TEXT_LIMIT && is_ascii_chars(text@) ==> r is Some,
{
    qrcodegen::QrCode::encode_text(text, qrcodegen::QrCodeEcc::Medium).ok().map(|qr| {
        (0..qr.size()).map(|y| (0..qr.size()).map(|x| qr.get_module(x, y)).collect()).collect()
    })
}

/// The number of hex digits that values below `16^k` need at most.
pub open spec fn pow16(k: nat) -> nat
    decreases k,
{
    if k == 0 { 1 } else { 16 * pow16((k - 1) as nat) }
}

proof fn lemma_hex_of_short_ascii(n: nat, k: nat)
    requires
        k >= 1,
        n < pow16(k),
    ensures
        hex_of(n).len() <= k,
        is_ascii_chars(hex_of(n)),
    decreases n,
{
    if n >= 16 {
        assert(n / 16 < pow16((k - 1) as nat)) by (nonlinear_arith)
            requires n < 16 * pow16((k - 1) as nat), k >= 1;
        assert(k >= 2) by {
            if k == 1 {
                assert(pow16(1) == 16);
            }
        }
        lemma_hex_of_short_ascii(n / 16, (k - 1) as nat);
        let h = hex_of(n / 16);
        let d = hex_char((n % 16) as int);
        assert(hex_of(n) == h + seq![d]);
        assert forall|i: int| 0 <= i < hex_of(n).len() implies '\0' <= #[trigger] hex_of(n)[i] <= '\u{7f}' by {
            if i < h.len() {
                assert(hex_of(n)[i] == h[i]);
            }
        }
    }
}

/// The most days a link may be set to last.
pub const MAX_EXPIRY_DAYS: u32 = 365;

impl SharePanel {
    /// A fresh panel for a recording: no link, view-only, no password, no expiry
    /// (seven days offered once expiry is switched on).
    pub fn new(recording_id: String, is_pro: bool) -> (p: Self)
        ensures
            p.share_link is None,
            p.options.recording_id == recording_id,
            !p.options.enable_download,
            p.options.password is None,
            p.options.expires_in_days is None,
            p.password_input@.len() == 0,
            !p.password_enabled,
            !p.expiry_enabled,
            p.expiry_days == 7,
            p.status@.len() == 0,
            p.is_pro == is_pro,
    {
        SharePanel {
            share_link: None,
            options: ShareOptions { recording_id, enable_download: false, password: None, expires_in_days: None },
            password_input: String::new(),
            password_enabled: false,
            expiry_enabled: false,
            expiry_days: 7,
            status: String::new(),
            is_pro,
        }
    }

    /// The label of the generate button.
    pub fn generate_label(&self) -> (s: &'static str)
        ensures
            self.share_link is Some ==> s@ == "🔄 Regenerate Link"@,
            self.share_link is None ==> s@ == "✨ Generate Share Link"@,
    {
        if self.share_link.is_some() { "🔄 Regenerate Link" } else { "✨ Generate Share Link" }
    }

    /// Ticks or unticks "Allow video download"; only Pro users can.
    pub fn set_download(&mut self, enabled: bool)
        ensures
            final(self).options.enable_download == if old(self).is_pro { enabled } else { old(self).options.enable_download },
            final(self).options.password == old(self).options.password,
            final(self).options.expires_in_days == old(self).options.expires_in_days,
            final(self).options.recording_id == old(self).options.recording_id,
            !old(self).is_pro ==> final(self).options == old(self).options,
            final(self).share_link == old(self).share_link,
            final(self).status == old(self).status,
            final(self).is_pro == old(self).is_pro,
    {
        if self.is_pro {
            self.options.enable_download = enabled;
        }
    }

    /// Ticks or unticks "Password protect" (Pro only); unticking clears the
    /// field and the password.
    pub fn set_password_enabled(&mut self, enabled: bool)
        ensures
            !old(self).is_pro ==> final(self).password_enabled == old(self).password_enabled
                && final(self).password_input == old(self).password_input
                && final(self).options.password == old(self).options.password,
            old(self).is_pro ==> final(self).password_enabled == enabled,
            old(self).is_pro && !enabled ==> final(self).password_input@.len() == 0 && final(self).options.password is None,
            old(self).is_pro && enabled ==> final(self).password_input == old(self).password_input
                && final(self).options.password == old(self).options.password,
            final(self).options.enable_download == old(self).options.enable_download,
            final(self).options.expires_in_days == old(self).options.expires_in_days,
            final(self).options.recording_id == old(self).options.recording_id,
            !old(self).is_pro ==> final(self).options == old(self).options,
            final(self).share_link == old(self).share_link,
            final(self).status == old(self).status,
            final(self).is_pro == old(self).is_pro,
    {
        if self.is_pro {
            self.password_enabled = enabled;
            if !enabled {
                self.password_input = String::new();
                self.options.password = None;
            }
        }
    }

    /// Types into the password field (while password protection is on): an
    /// empty field means no password.
    pub fn set_password_input(&mut self, text: String)
        ensures
            (old(self).is_pro && old(self).password_enabled) ==> {
                &&& final(self).password_input == text
                &&& final(self).options.password == if text@.len() == 0 { None } else { Some(text) }
            },
            !(old(self).is_pro && old(self).password_enabled) ==> final(self).password_input == old(self).password_input
                && final(self).options.password == old(self).options.password,
            final(self).password_enabled == old(self).password_enabled,
            final(self).options.enable_download == old(self).options.enable_download,
            final(self).options.expires_in_days == old(self).options.expires_in_days,
            final(self).options.recording_id == old(self).options.recording_id,
            !old(self).is_pro ==> final(self).options == old(self).options,
            final(self).share_link == old(self).share_link,
            final(self).status == old(self).status,
            final(self).is_pro == old(self).is_pro,
    {
        if self.is_pro && self.password_enabled {
            self.options.password = if text.as_str().is_empty() { None } else { Some(text.clone()) };
            self.password_input = text;
        }
    }

    /// Ticks or unticks "Link expires after" (Pro only): the link then expires
    /// after the chosen number of days, or never.
    pub fn set_expiry_enabled(&mut self, enabled: bool)
        ensures
            old(self).is_pro ==> final(self).expiry_enabled == enabled
                && final(self).options.expires_in_days == if enabled { Some(old(self).expiry_days) } else { None },
            !old(self).is_pro ==> final(self).expiry_enabled == old(self).expiry_enabled
                && final(self).options.expires_in_days == old(self).options.expires_in_days,
            final(self).expiry_days == old(self).expiry_days,
            final(self).options.enable_download == old(self).options.enable_download,
            final(self).options.password == old(self).options.password,
            final(self).options.recording_id == old(self).options.recording_id,
            !old(self).is_pro ==> final(self).options == old(self).options,
            final(self).share_link == old(self).share_link,
            final(self).status == old(self).status,
            final(self).is_pro == old(self).is_pro,
    {
        if self.is_pro {
            self.expiry_enabled = enabled;
            self.options.expires_in_days = if enabled { Some(self.expiry_days) } else { None };
        }
    }

    /// Sets the number of days (while expiry is on), kept within 1..=365.
    pub fn set_expiry_days(&mut self, days: u32)
        ensures
            (old(self).is_pro && old(self).expiry_enabled) ==> {
                let d = if days < 1 { 1 } else if days > MAX_EXPIRY_DAYS { MAX_EXPIRY_DAYS } else { days };
                &&& final(self).expiry_days == d
                &&& final(self).options.expires_in_days == Some(d)
            },
            !(old(self).is_pro && old(self).expiry_enabled) ==> final(self).expiry_days == old(self).expiry_days
                && final(self).options.expires_in_days == old(self).options.expires_in_days,
            final(self).expiry_enabled == old(self).expiry_enabled,
            final(self).options.enable_download == old(self).options.enable_download,
            final(self).options.password == old(self).options.password,
            final(self).options.recording_id == old(self).options.recording_id,
            !old(self).is_pro ==> final(self).options == old(self).options,
            final(self).share_link == old(self).share_link,
            final(self).status == old(self).status,
            final(self).is_pro == old(self).is_pro,
    {
        if self.is_pro && self.expiry_enabled {
            let d = if days < 1 { 1 } else if days > MAX_EXPIRY_DAYS { MAX_EXPIRY_DAYS } else { days };
            self.expiry_days = d;
            self.options.expires_in_days = Some(d);
        }
    }

    /// The link for the token value `n`, with the status line that reports it.
    pub fn set_link(&mut self, n: u128)
        ensures
            final(self).share_link matches Some(l) && l@ == spec_share_link(n),
            final(self).share_link->0@.len() <= QR_TEXT_LIMIT,
            is_ascii_chars(final(self).share_link->0@),
            final(self).status@ == "Link generated! (Signed via Supabase Storage)"@,
            final(self).options == old(self).options,
            final(self).is_pro == old(self).is_pro,
    {
        proof {
            reveal_strlit("https://phantom.app/s/");
            assert(pow16(32) == 0x1_0000_0000_0000_0000_0000_0000_0000_0000) by {
                reveal_with_fuel(pow16, 33);
            }
            lemma_hex_of_short_ascii(n as nat, 32);
            let b = SHARE_BASE@;
            let h = hex_of(n as nat);
            assert forall|i: int| 0 <= i < (b + h).len() implies '\0' <= #[trigger] (b + h)[i] <= '\u{7f}' by {
                if i >= b.len() {
                    assert((b + h)[i] == h[i - b.len()]);
                }
            }
        }
        let mut link = owned(SHARE_BASE);
        let token = hex_u128(n);
        link.append(token.as_str());
        self.share_link = Some(link);
        self.status = owned("Link generated! (Signed via Supabase Storage)");
    }

    /// Generates a link with a fresh random token value.
    pub fn generate_link(&mut self)
        ensures
            exists|n: u128| #[trigger] spec_share_link(n) == final(self).share_link->0@,
            final(self).share_link is Some,
            final(self).share_link->0@.len() <= QR_TEXT_LIMIT,
            is_ascii_chars(final(self).share_link->0@),
            final(self).status@ == "Link generated! (Signed via Supabase Storage)"@,
            final(self).options == old(self).options,
            final(self).is_pro == old(self).is_pro,
    {
        let n = random_uuid_value();
        self.set_link(n);
    }

    /// The QR code drawn under a link on a paid tier: the link's QR code
    /// modules; none without a link or on the free tier.
    pub fn qr_code(&self) -> (r: Option<Vec<Vec<bool>>>)
        requires
            self.is_pro && self.share_link is Some ==>
                self.share_link->0@.len() <= QR_TEXT_LIMIT && is_ascii_chars(self.share_link->0@),
        ensures
            self.is_pro && self.share_link is Some ==>
                (r matches Some(v) && qr_modules(self.share_link->0@) == Some(grid_rows(v@))),
            !(self.is_pro && self.share_link is Some) ==> r is None,
    {
        if !self.is_pro {
            return None;
        }
        match &self.share_link {
            Some(l) => encode_qr(l.as_str()),
            None => None,
        }
    }
}

} // verus!
