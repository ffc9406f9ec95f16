use phantom::billing::entitlement::{DAY_NANOS, NANOS_PER_SEC};
use phantom::billing::tier::Tier;
use phantom::uplink::share::{hex_sha256, password_hash, share_settings, ShareManager};
use phantom::uplink::supabase::{AuthSession, AuthUser, SupabaseClient};
use phantom::uplink::team::{Comment, TeamClient, TeamError};
use phantom::uplink::updater::{
    decide_update, InstallerError, PlatformRelease, ReleaseManifest, UpdateCheckResult, UpdateError, Updater,
};

const NOW: i128 = 1_704_067_200 * NANOS_PER_SEC;

fn release(url: &str) -> PlatformRelease {
    PlatformRelease { url: url.to_string(), sha256: "00".to_string(), size_bytes: 1 }
}

fn manifest(version: &str) -> ReleaseManifest {
    ReleaseManifest {
        version: version.to_string(),
        platforms: vec![
            ("windows-x86_64".to_string(), release("https://r/win.msi")),
            ("macos-aarch64".to_string(), release("https://r/mac.dmg")),
        ],
        changelog: "- faster".to_string(),
    }
}

#[test]
fn sha256_hex_digests() {
    assert_eq!(hex_sha256(b""), "e3b0c44298fc1c149afbf4c8996fb92427ae41e4649b934ca495991b7852b855");
    assert_eq!(password_hash("abc"), "ba7816bf8f01cfea414140de5dae2223b00361a396177a9cb410ff61f20015ad");
    assert_eq!(password_hash("abc").len(), 64);
}

#[test]
fn share_settings_by_tier() {
    let f = share_settings(Tier::Free, Some("pw"), Some(3), true);
    assert!(!f.download_enabled && f.expires_in_days.is_none() && f.password_hash.is_none());
    let p = share_settings(Tier::Pro, Some("abc"), Some(3), true);
    assert!(p.download_enabled);
    assert_eq!(p.expires_in_days, Some(3));
    assert_eq!(p.password_hash.as_deref(), Some("ba7816bf8f01cfea414140de5dae2223b00361a396177a9cb410ff61f20015ad"));
    let t = share_settings(Tier::Team, None, None, false);
    assert!(!t.download_enabled && t.password_hash.is_none());
}

#[test]
fn share_links() {
    let m = ShareManager::new("https://play.phantom.app".to_string());
    let free = m.link_for("tok".to_string(), Tier::Free, NOW, None, Some(5), true);
    assert_eq!(free.url, "https://play.phantom.app/watch/tok");
    assert!(!free.download_enabled);
    assert_eq!(free.expires_at, None);
    let pro = m.link_for("tok".to_string(), Tier::Pro, NOW, Some("pw"), Some(5), true);
    assert!(pro.download_enabled);
    assert_eq!(pro.expires_at, Some(NOW + 5 * DAY_NANOS));
    let forever = m.link_for("tok".to_string(), Tier::Team, NOW, None, None, false);
    assert_eq!(forever.expires_at, None);
    let g = m.generate(Tier::Pro, NOW, None, Some(1), false);
    assert_eq!(g.token.len(), 32);
    assert!(g.token.chars().all(|c| c.is_ascii_hexdigit() && !c.is_ascii_uppercase()));
    assert_eq!(g.url, format!("https://play.phantom.app/watch/{}", g.token));
    assert_eq!(g.expires_at, Some(NOW + DAY_NANOS));
    let h = m.generate(Tier::Pro, NOW, None, None, false);
    assert_ne!(g.token, h.token);
}

#[test]
fn supabase_endpoints() {
    let mut c = SupabaseClient::new("https://p.supabase.co".to_string(), "anon".to_string());
    assert_eq!(c.auth_header(), "Bearer anon");
    assert_eq!(c.sign_in_url(), "https://p.supabase.co/auth/v1/token?grant_type=password");
    assert_eq!(c.upload_url("recordings", "u/s/video.mp4"), "https://p.supabase.co/storage/v1/object/recordings/u/s/video.mp4");
    assert_eq!(
        c.public_object_url("recordings", "u/v.mp4"),
        "https://p.supabase.co/storage/v1/object/public/recordings/u/v.mp4"
    );
    assert_eq!(c.sign_url("b", "o"), "https://p.supabase.co/storage/v1/object/sign/b/o");
    assert_eq!(c.signed_url("/storage/v1/x?token=t"), "https://p.supabase.co/storage/v1/x?token=t");
    assert_eq!(c.rest_url("/rest/v1/x"), "https://p.supabase.co/rest/v1/x");
    let user = c.complete_sign_in(AuthSession {
        access_token: "jwt".to_string(),
        refresh_token: "r".to_string(),
        user: AuthUser { id: "u1".to_string(), email: "a@b.c".to_string() },
    });
    assert_eq!(user.id, "u1");
    assert_eq!(user.email, "a@b.c");
    assert_eq!(c.auth_header(), "Bearer jwt");
    let d = SupabaseClient::with_defaults(None, Some("k".to_string()));
    assert_eq!(d.project_url, "https://YOUR_PROJECT.supabase.co");
    assert_eq!(d.anon_key, "k");
    assert!(d.access_token.is_none());
}

#[test]
fn team_requests() {
    let c = SupabaseClient::new("https://p".to_string(), "anon".to_string());
    let t = TeamClient::new(&c);
    assert_eq!(t.list_workspaces_url(), "https://p/rest/v1/workspaces");
    assert_eq!(t.comments_url("abc"), "https://p/rest/v1/comments?recording_id=eq.abc");
    assert_eq!(t.post_comment_url(), "https://p/rest/v1/comments");
    let n = TeamClient::new_comment("abc".to_string(), "nice".to_string(), Some(1500));
    assert_eq!((n.recording_id.as_str(), n.text.as_str(), n.timestamp_ms), ("abc", "nice", Some(1500)));
    let comment = |id: &str| Comment {
        id: id.to_string(),
        recording_id: "abc".to_string(),
        user_id: "u".to_string(),
        text: "t".to_string(),
        timestamp_ms: None,
        created_at: NOW,
    };
    let got = TeamClient::inserted_comment(vec![comment("c1"), comment("c2")]).ok().unwrap();
    assert_eq!(got.id, "c2");
    assert_eq!(TeamClient::inserted_comment(vec![]).err(), Some(TeamError::NoInsertedComment));
}

#[test]
fn platform_keys() {
    assert_eq!(Updater::platform_key("windows", "x86_64"), "windows-x86_64");
    assert_eq!(Updater::platform_key("macos", "aarch64"), "macos-aarch64");
    assert_eq!(Updater::platform_key("macos", "x86_64"), "macos-x86_64");
    assert_eq!(Updater::platform_key("linux", "x86_64"), "unknown");
}

#[test]
fn update_checks() {
    match Updater::check_manifest(manifest("0.2.0"), "0.1.0", "macos-aarch64") {
        Ok(UpdateCheckResult::UpdateAvailable { new_version, changelog, release }) => {
            assert_eq!(new_version, "0.2.0");
            assert_eq!(changelog, "- faster");
            assert_eq!(release.url, "https://r/mac.dmg");
        }
        _ => panic!("expected an update"),
    }
    assert!(matches!(Updater::check_manifest(manifest("0.1.0"), "0.1.0", "windows-x86_64"), Ok(UpdateCheckResult::UpToDate)));
    assert!(matches!(Updater::check_manifest(manifest("0.0.9"), "0.1.0", "windows-x86_64"), Ok(UpdateCheckResult::UpToDate)));
    assert!(matches!(
        Updater::check_manifest(manifest("0.2.0"), "0.1.0", "unknown"),
        Err(UpdateError::NoReleaseForPlatform)
    ));
    assert!(matches!(
        Updater::check_manifest(manifest("0.2.0"), "one", "unknown"),
        Err(UpdateError::InvalidCurrentVersion)
    ));
    assert!(matches!(
        Updater::check_manifest(manifest("v2"), "0.1.0", "unknown"),
        Err(UpdateError::InvalidLatestVersion)
    ));
    // A pre-release orders before its release.
    assert!(matches!(
        Updater::check_manifest(manifest("0.2.0-beta.1"), "0.2.0", "windows-x86_64"),
        Ok(UpdateCheckResult::UpToDate)
    ));
    assert!(matches!(decide_update(manifest("9.9.9"), false, "windows-x86_64"), Ok(UpdateCheckResult::UpToDate)));
}

#[test]
fn updater_manifest_url_and_installer_digest() {
    assert_eq!(
        Updater::new(Some("https://p.supabase.co".to_string())).manifest_url,
        "https://p.supabase.co/storage/v1/object/public/phantom-releases/latest.json"
    );
    assert_eq!(
        Updater::new(None).manifest_url,
        "https://YOUR_PROJECT.supabase.co/storage/v1/object/public/phantom-releases/latest.json"
    );
    assert_eq!(
        Updater::verify_installer(b"abc", "ba7816bf8f01cfea414140de5dae2223b00361a396177a9cb410ff61f20015ad"),
        Ok(())
    );
    assert_eq!(Updater::verify_installer(b"abd", "ba7816bf8f01cfea414140de5dae2223b00361a396177a9cb410ff61f20015ad"), Err(InstallerError::DigestMismatch));
}
