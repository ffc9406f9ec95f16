//! Share links: free links are view-only and never expire; paid tiers may allow
//! downloads, set an expiry and protect the link with a password (stored as its
//! SHA-256 digest in lowercase hex).
use vstd::prelude::*;
use vstd::utf8::encode_utf8;
use sha2::Digest;
use crate::billing::tier::Tier;
use crate::billing::entitlement::{DAY_NANOS, in_chrono_range};

verus! {

/// The SHA-256 digest of a byte string.
pub uninterp spec fn sha256(data: Seq<u8>) -> Seq<u8>;

/// `Sha256::digest`: the 32-byte SHA-256 digest of the data.
#[verifier::external_body]
fn sha256_digest(data: &[u8]) -> (r: Vec<u8>)
    ensures
        r@ == sha256(data@),
        r@.len() == 32,
{
    sha2::Sha256::digest(data).to_vec()
}

/// The lowercase hex digit for a value below 16.
pub open spec fn hex_digit(n: int) -> char {
    if n < 10 {
        crate::text::digit_char(n)
    } else if n == 10 { 'a' }
    else if n == 11 { 'b' }
    else if n == 12 { 'c' }
    else if n == 13 { 'd' }
    else if n == 14 { 'e' }
    else { 'f' }
}

/// Each byte as two lowercase hex digits, high nibble first.
pub open spec fn hex_lower(b: Seq<u8>) -> Seq<char>
    decreases b.len(),
{
    if b.len() == 0 {
        seq![]
    } else {
        hex_lower(b.drop_last()) + seq![hex_digit(b.last() as int / 16), hex_digit(b.last() as int % 16)]
    }
}

/// `hex::encode`: each byte as two lowercase hex digits, high nibble first.
#[verifier::external_body]
fn hex_encode(data: &[u8]) -> (s: String)
    ensures
        s@ == hex_lower(data@),
{
    hex::encode(data)
}

/// A lowercase hex digit.
pub open spec fn is_lower_hex(c: char) -> bool {
    ('0' <= c <= '9') || ('a' <= c <= 'f')
}

/// `Uuid::new_v4` in its simple text form: 32 random lowercase hex digits.
#[verifier::external_body]
fn random_token() -> (t: String)
    ensures
        t@.len() == 32,
        forall|i: int| 0 <= i < 32 ==> is_lower_hex(#[trigger] t@[i]),
{
    uuid::Uuid::new_v4().simple().to_string()
}

/// The lowercase hex SHA-256 of a byte string.
pub fn hex_sha256(data: &[u8]) -> (h: String)
    ensures
        h@ == hex_lower(sha256(data@)),
        h@.len() == 64,
{
    let digest = sha256_digest(data);
    proof {
        lemma_hex_len(digest@);
    }
    hex_encode(digest.as_slice())
}

/// The stored form of a share password: the lowercase hex SHA-256 of its UTF-8 bytes.
pub fn password_hash(password: &str) -> (h: String)
    ensures
        h@ == hex_lower(sha256(encode_utf8(password@))),
        h@.len() == 64,
{
    hex_sha256(password.as_bytes())
}

proof fn lemma_hex_len(b: Seq<u8>)
    ensures
        hex_lower(b).len() == 2 * b.len(),
    decreases b.len(),
{
    if b.len() > 0 {
        lemma_hex_len(b.drop_last());
    }
}

/// The options a share link gets.
pub struct ShareSettings {
    pub download_enabled: bool,
    /// Days until expiry; `None` means never.
    pub expires_in_days: Option<u64>,
    /// Stored password digest, if password protected.
    pub password_hash: Option<String>,
}

/// The options a link is made with: on the free tier view-only, without expiry
/// or password whatever was asked; on a paid tier as asked, the password hashed.
pub fn share_settings(tier: Tier, password: Option<&str>, expires_in_days: Option<u64>, allow_download: bool) -> (s: ShareSettings)
    ensures
        tier == Tier::Free ==> !s.download_enabled && s.expires_in_days is None && s.password_hash is None,
        tier != Tier::Free ==> {
            &&& s.download_enabled == allow_download
            &&& s.expires_in_days == expires_in_days
            &&& match password {
                Some(p) => s.password_hash matches Some(h) && h@ == hex_lower(sha256(encode_utf8(p@))),
                None => s.password_hash is None,
            }
        },
{
    match tier {
        Tier::Free => ShareSettings { download_enabled: false, expires_in_days: None, password_hash: None },
        _ => {
            let password_hash = match password {
                Some(p) => Some(password_hash(p)),
                None => None,
            };
            ShareSettings { download_enabled: allow_download, expires_in_days, password_hash }
        },
    }
}

/// When a link made at `now` expires: never on the free tier; on a paid tier the
/// asked number of days later, or never.
pub open spec fn spec_expiry(tier: Tier, now: int, expires_in_days: Option<u64>) -> Option<int> {
    match (tier, expires_in_days) {
        (Tier::Free, _) => None,
        (_, Some(d)) => Some(now + d * DAY_NANOS),
        (_, None) => None,
    }
}

/// Link expiry by tier: a free link never expires; a link on either paid tier
/// expires exactly the asked number of days after it was made, or never when no
/// days were asked, the same on Pro as on Team.
pub proof fn lemma_expiry_by_tier(tier: Tier, now: int, expires_in_days: Option<u64>)
    ensures
        tier == Tier::Free ==> spec_expiry(tier, now, expires_in_days) is None,
        tier != Tier::Free && expires_in_days is None ==> spec_expiry(tier, now, expires_in_days) is None,
        forall|d: u64| tier != Tier::Free && expires_in_days == Some(d) ==>
            #[trigger] spec_expiry(tier, now, Some(d)) == Some(now + d * 86_400_000_000_000),
        spec_expiry(Tier::Pro, now, expires_in_days) == spec_expiry(Tier::Team, now, expires_in_days),
{
}

/// The expiry, if any, is an instant chrono can hold.
pub open spec fn expiry_in_range(tier: Tier, now: int, expires_in_days: Option<u64>) -> bool {
    spec_expiry(tier, now, expires_in_days) matches Some(e) ==> in_chrono_range(e)
}

/// The web player URL of a share token.
pub open spec fn spec_watch_url(player_base_url: Seq<char>, token: Seq<char>) -> Seq<char> {
    player_base_url + "/watch/"@ + token
}

/// A generated share link.
pub struct ShareLink {
    pub token: String,
    pub url: String,
    pub download_enabled: bool,
    /// When the link stops working; `None` means never.
    pub expires_at: Option<i128>,
}

/// Makes share links that point at the web share player.
pub struct ShareManager {
    /// Base URL of the web share player.
    pub player_base_url: String,
}

/// The storage bucket that recordings are shared from.
pub const RECORDINGS_BUCKET: &'static str = "recordings";

/// How long a signed streaming URL stays valid: fifteen minutes.
pub const SIGNED_URL_TTL_SECS: u64 = 900;

impl ShareManager {
    pub fn new(player_base_url: String) -> (m: Self)
        ensures
            m.player_base_url == player_base_url,
    {
        ShareManager { player_base_url }
    }

    /// The link with token `token`, made at `now` for a recording owned on
    /// `tier`: free links are view-only and never expire; paid links allow
    /// downloads as asked and expire after the asked number of days, if any.
    pub fn link_for(
        &self,
        token: String,
        tier: Tier,
        now: i128,
        password: Option<&str>,
        expires_in_days: Option<u64>,
        allow_download: bool,
    ) -> (l: ShareLink)
        requires
            in_chrono_range(now as int),
            expiry_in_range(tier, now as int, expires_in_days),
        ensures
            l.token == token,
            l.url@ == spec_watch_url(self.player_base_url@, token@),
            l.download_enabled == (tier != Tier::Free && allow_download),
            match spec_expiry(tier, now as int, expires_in_days) {
                Some(e) => l.expires_at == Some(e as i128),
                None => l.expires_at is None,
            },
            tier != Tier::Free && expires_in_days is Some ==>
                l.expires_at == Some((now + expires_in_days->0 * DAY_NANOS) as i128),
            tier == Tier::Free || expires_in_days is None ==> l.expires_at is None,
    {
        let settings = share_settings(tier, password, expires_in_days, allow_download);
        let expires_at = match settings.expires_in_days {
            Some(d) => Some(now + (d as i128) * DAY_NANOS),
            None => None,
        };
        let mut url = self.player_base_url.clone();
        url.append("/watch/");
        url.append(token.as_str());
        ShareLink { token, url, download_enabled: settings.download_enabled, expires_at }
    }

    /// A new link with a fresh random token (32 lowercase hex digits), made at
    /// `now`; the rest as `link_for` says.
    pub fn generate(
        &self,
        tier: Tier,
        now: i128,
        password: Option<&str>,
        expires_in_days: Option<u64>,
        allow_download: bool,
    ) -> (l: ShareLink)
        requires
            in_chrono_range(now as int),
            expiry_in_range(tier, now as int, expires_in_days),
        ensures
            l.token@.len() == 32,
            forall|i: int| 0 <= i < 32 ==> is_lower_hex(#[trigger] l.token@[i]),
            l.url@ == spec_watch_url(self.player_base_url@, l.token@),
            l.download_enabled == (tier != Tier::Free && allow_download),
            match spec_expiry(tier, now as int, expires_in_days) {
                Some(e) => l.expires_at == Some(e as i128),
                None => l.expires_at is None,
            },
            tier != Tier::Free && expires_in_days is Some ==>
                l.expires_at == Some((now + expires_in_days->0 * DAY_NANOS) as i128),
            tier == Tier::Free || expires_in_days is None ==> l.expires_at is None,
    {
        let token = random_token();
        self.link_for(token, tier, now, password, expires_in_days, allow_download)
    }
}

} // verus!
