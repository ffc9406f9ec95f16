//! The self-hosted updater's decisions: which platform build applies, and whether
//! a release manifest offers a newer version for it.
use vstd::prelude::*;
use crate::text::{owned, str_eq};
use crate::uplink::share::{hex_lower, sha256, hex_sha256};
use crate::uplink::supabase::configured_or;

verus! {

/// `semver::Error`, carried unread.
#[verifier::external_type_specification]
#[verifier::external_body]
pub struct ExSemverError(semver::Error);

/// The text is a version that `semver::Version::parse` accepts.
pub uninterp spec fn semver_valid(s: Seq<char>) -> bool;

/// The version in `a` orders at or before the one in `b`, as `semver::Version`
/// orders them (major, minor, patch, pre-release, build).
pub uninterp spec fn semver_le(a: Seq<char>, b: Seq<char>) -> bool;

/// `semver::Version::parse`, keeping only whether it succeeded.
#[verifier::external_body]
fn parse_version(s: &str) -> (r: Result<(), semver::Error>)
    ensures
        r is Ok <==> semver_valid(s@),
{
    semver::Version::parse(s).map(|_| ())
}

/// `<semver::Version as PartialOrd>::le` on two parsed versions.
#[verifier::external_body]
fn version_le(a: &str, b: &str) -> (r: bool)
    requires
        semver_valid(a@),
        semver_valid(b@),
    ensures
        r == semver_le(a@, b@),
{
    match (semver::Version::parse(a), semver::Version::parse(b)) {
        (Ok(x), Ok(y)) => x <= y,
        _ => false,
    }
}

/// One platform's installer.
pub struct PlatformRelease {
    pub url: String,
    pub sha256: String,
    pub size_bytes: u64,
}

/// The release manifest: the latest version, one installer per platform key,
/// and the changelog.
pub struct ReleaseManifest {
    pub version: String,
    pub platforms: Vec<(String, PlatformRelease)>,
    pub changelog: String,
}

/// Result of an update check.
pub enum UpdateCheckResult {
    /// Already on the latest version.
    UpToDate,
    /// A new version is available.
    UpdateAvailable {
        new_version: String,
        changelog: String,
        release: PlatformRelease,
    },
}

/// Why an update check failed.
#[derive(Debug, Clone, Copy, PartialEq, Eq, Structural)]
pub enum UpdateError {
    /// The running version is not a semantic version.
    InvalidCurrentVersion,
    /// The manifest's version is not a semantic version.
    InvalidLatestVersion,
    /// The manifest has no installer for this platform.
    NoReleaseForPlatform,
}

/// The manifest key of a platform, from its OS and architecture names (as
/// `std::env::consts` gives them).
pub open spec fn spec_platform_key(os: Seq<char>, arch: Seq<char>) -> Seq<char> {
    if os == "windows"@ {
        "windows-x86_64"@
    } else if os == "macos"@ {
        if arch == "aarch64"@ { "macos-aarch64"@ } else { "macos-x86_64"@ }
    } else {
        "unknown"@
    }
}

/// The platforms a build exists for: Windows on x86-64, macOS on ARM or x86-64,
/// and any other OS.
pub open spec fn supported_platform(os: Seq<char>, arch: Seq<char>) -> bool {
    &&& os == "windows"@ ==> arch == "x86_64"@
    &&& os == "macos"@ ==> (arch == "aarch64"@ || arch == "x86_64"@)
}

/// The index of the first manifest entry for `platform`.
pub open spec fn release_index(platforms: Seq<(String, PlatformRelease)>, platform: Seq<char>) -> Option<int>
    decreases platforms.len(),
{
    if platforms.len() == 0 {
        None
    } else {
        match release_index(platforms.drop_last(), platform) {
            Some(i) => Some(i),
            None => if platforms.last().0@ == platform { Some(platforms.len() - 1) } else { None },
        }
    }
}

proof fn lemma_release_index_prefix(ps: Seq<(String, PlatformRelease)>, p: Seq<char>, k: int)
    requires
        0 <= k <= ps.len(),
        release_index(ps.take(k), p) is Some,
    ensures
        release_index(ps, p) == release_index(ps.take(k), p),
    decreases ps.len() - k,
{
    if k < ps.len() {
        assert(ps.take(k + 1).drop_last() == ps.take(k));
        lemma_release_index_prefix(ps, p, k + 1);
    } else {
        assert(ps.take(k) == ps);
    }
}

/// What a manifest offers once the version comparison is known: nothing when the
/// manifest is not newer; else its version, changelog and this platform's
/// installer, or an error when it has none.
pub fn decide_update(manifest: ReleaseManifest, latest_is_newer: bool, platform: &str) -> (r: Result<UpdateCheckResult, UpdateError>)
    ensures
        !latest_is_newer ==> r matches Ok(UpdateCheckResult::UpToDate),
        latest_is_newer ==> (match release_index(manifest.platforms@, platform@) {
            Some(i) => r matches Ok(UpdateCheckResult::UpdateAvailable { new_version, changelog, release })
                && new_version == manifest.version && changelog == manifest.changelog
                && release == manifest.platforms@[i].1,
            None => r == Err::<UpdateCheckResult, UpdateError>(UpdateError::NoReleaseForPlatform),
        }),
{
    if !latest_is_newer {
        return Ok(UpdateCheckResult::UpToDate);
    }
    let ReleaseManifest { version, platforms, changelog } = manifest;
    let ghost ps = platforms@;
    let mut platforms = platforms;
    let n = platforms.len();
    let mut i: usize = 0;
    while i < n
        invariant
            latest_is_newer,
            ps == manifest.platforms@,
            version == manifest.version,
            changelog == manifest.changelog,
            n == ps.len(),
            platforms@ == ps,
            i <= n,
            release_index(ps.take(i as int), platform@) is None,
        decreases n - i,
    {
        assert(ps.take(i + 1).drop_last() == ps.take(i as int));
        assert(ps.take(i + 1).last() == ps[i as int]);
        if str_eq(platforms[i].0.as_str(), platform) {
            proof {
                lemma_release_index_prefix(ps, platform@, i + 1);
            }
            let (_, release) = platforms.swap_remove(i);
            assert(release == ps[i as int].1);
            return Ok(UpdateCheckResult::UpdateAvailable { new_version: version, changelog, release });
        }
        i = i + 1;
    }
    assert(ps.take(n as int) == ps);
    Err(UpdateError::NoReleaseForPlatform)
}

/// The project URL used when none is configured.
pub const DEFAULT_BASE_URL: &'static str = "https://YOUR_PROJECT.supabase.co";

/// Where the release manifest lives under the project URL.
pub const MANIFEST_PATH: &'static str = "/storage/v1/object/public/phantom-releases/latest.json";

/// Why a downloaded installer was refused.
#[derive(Debug, Clone, Copy, PartialEq, Eq, Structural)]
pub enum InstallerError {
    /// The SHA-256 of the download is not the one the manifest gives.
    DigestMismatch,
}

/// Checks the release manifest of the configured project.
pub struct Updater {
    pub manifest_url: String,
}

impl Updater {
    /// The updater for the project URL read from `SUPABASE_URL`, or a
    /// placeholder project where it is unset.
    pub fn new(project_url: Option<String>) -> (u: Self)
        ensures
            u.manifest_url@ == configured_or(project_url, DEFAULT_BASE_URL@) + MANIFEST_PATH@,
    {
        let mut manifest_url = match project_url {
            Some(p) => p,
            None => owned(DEFAULT_BASE_URL),
        };
        manifest_url.append(MANIFEST_PATH);
        Updater { manifest_url }
    }

    /// The manifest key of the platform.
    pub fn platform_key(os: &str, arch: &str) -> (k: &'static str)
        requires
            supported_platform(os@, arch@),
        ensures
            k@ == spec_platform_key(os@, arch@),
    {
        if str_eq(os, "windows") {
            "windows-x86_64"
        } else if str_eq(os, "macos") {
            if str_eq(arch, "aarch64") { "macos-aarch64" } else { "macos-x86_64" }
        } else {
            "unknown"
        }
    }

    /// Compares the manifest with the running version `current_version` for the
    /// platform key `platform`: the running version is read first, then the
    /// manifest's; the manifest is an update when its version orders after the
    /// running one.
    pub fn check_manifest(manifest: ReleaseManifest, current_version: &str, platform: &str) -> (r: Result<UpdateCheckResult, UpdateError>)
        ensures
            !semver_valid(current_version@) ==> r == Err::<UpdateCheckResult, UpdateError>(UpdateError::InvalidCurrentVersion),
            semver_valid(current_version@) && !semver_valid(manifest.version@) ==> r == Err::<UpdateCheckResult, UpdateError>(UpdateError::InvalidLatestVersion),
            semver_valid(current_version@) && semver_valid(manifest.version@) ==> {
                let newer = !semver_le(manifest.version@, current_version@);
                &&& (!newer ==> r matches Ok(UpdateCheckResult::UpToDate))
                &&& (newer ==> match release_index(manifest.platforms@, platform@) {
                    Some(i) => r matches Ok(UpdateCheckResult::UpdateAvailable { new_version, changelog, release })
                        && new_version == manifest.version && changelog == manifest.changelog
                        && release == manifest.platforms@[i].1,
                    None => r == Err::<UpdateCheckResult, UpdateError>(UpdateError::NoReleaseForPlatform),
                })
            },
    {
        if parse_version(current_version).is_err() {
            return Err(UpdateError::InvalidCurrentVersion);
        }
        if parse_version(manifest.version.as_str()).is_err() {
            return Err(UpdateError::InvalidLatestVersion);
        }
        let newer = !version_le(manifest.version.as_str(), current_version);
        decide_update(manifest, newer, platform)
    }

    /// Accepts a downloaded installer only when the lowercase hex SHA-256 of its
    /// bytes is the manifest's digest.
    pub fn verify_installer(data: &[u8], expected_sha256: &str) -> (r: Result<(), InstallerError>)
        ensures
            r is Ok <==> hex_lower(sha256(data@)) == expected_sha256@,
            r is Err ==> r == Err::<(), InstallerError>(InstallerError::DigestMismatch),
    {
        let digest = hex_sha256(data);
        if str_eq(digest.as_str(), expected_sha256) {
            Ok(())
        } else {
            Err(InstallerError::DigestMismatch)
        }
    }
}

} // verus!
