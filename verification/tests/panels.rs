use phantom::billing::entitlement::DAY_NANOS;
use phantom::billing::tier::Tier;
use phantom::ui::panels::{
    api_key_note, clamp_duration_limit, daily_usage_line, duration_label, duration_limit_for, local_share_url,
    link_download_enabled, local_token, new_local_token, panel_expiry, recording_started_status, settings_saved_status, share_made_status,
    share_notes, share_target, share_target_name, summary_teaser, tag_labels, tier_choice_label,
};

#[test]
fn duration_label_pads_seconds() {
    assert_eq!(duration_label(0), "0:00");
    assert_eq!(duration_label(65), "1:05");
    assert_eq!(duration_label(600), "10:00");
    assert_eq!(duration_label(3725), "62:05");
}

#[test]
fn summary_teaser_keeps_first_hundred_chars() {
    assert_eq!(summary_teaser("short"), "💡 short…");
    let long: String = std::iter::repeat('é').take(150).collect();
    let t = summary_teaser(&long);
    let expected: String = format!("💡 {}…", std::iter::repeat('é').take(100).collect::<String>());
    assert_eq!(t, expected);
    assert_eq!(summary_teaser(""), "💡 …");
}

#[test]
fn tag_labels_prefix_hash() {
    let tags = vec!["demo".to_string(), "rust".to_string()];
    assert_eq!(tag_labels(&tags), vec!["#demo".to_string(), "#rust".to_string()]);
    assert!(tag_labels(&Vec::new()).is_empty());
}

#[test]
fn duration_limit_toggle_and_clamp() {
    assert_eq!(duration_limit_for(true), Some(300));
    assert_eq!(duration_limit_for(false), None);
    assert_eq!(clamp_duration_limit(5), 30);
    assert_eq!(clamp_duration_limit(30), 30);
    assert_eq!(clamp_duration_limit(900), 900);
    assert_eq!(clamp_duration_limit(3600), 3600);
    assert_eq!(clamp_duration_limit(10_000), 3600);
}

#[test]
fn recording_started_status_quotes_title() {
    assert_eq!(recording_started_status("Demo"), "Recording \"Demo\"…");
}

#[test]
fn settings_lines() {
    assert_eq!(settings_saved_status(""), "Settings saved. Add a Gemini API key to use cloud AI features.");
    assert_eq!(settings_saved_status("AIzaXYZ"), "Settings saved. Gemini AI is now active!");
    assert_eq!(api_key_note(""), "⚠ No key — Free tier only (local AI)");
    assert_eq!(api_key_note("k"), "✅ Key configured");
    assert_eq!(tier_choice_label(Tier::Free), "Free");
    assert_eq!(tier_choice_label(Tier::Pro), "Pro ($15/mo)");
    assert_eq!(tier_choice_label(Tier::Team), "Team ($49/mo)");
    assert_eq!(daily_usage_line(2), "AI uses today: 2/3 (resets midnight UTC)");
}

#[test]
fn share_target_needs_a_valid_selection() {
    let titles = vec!["First".to_string(), "Second".to_string()];
    assert_eq!(share_target(2, Some(1)), Some(1));
    assert_eq!(share_target(2, Some(2)), None);
    assert_eq!(share_target(2, None), None);
    assert_eq!(share_target_name(&titles, Some(0)), "First");
    assert_eq!(share_target_name(&titles, Some(5)), "(no recording selected)");
    assert_eq!(share_target_name(&titles, None), "(no recording selected)");
}

#[test]
fn local_token_is_first_twelve_hex_digits() {
    let v: u128 = 0x0123_4567_89ab_cdef_0011_2233_4455_6677;
    assert_eq!(local_token(v), "0123456789ab");
    assert_eq!(local_token(0), "000000000000");
    let t = new_local_token();
    assert_eq!(t.len(), 12);
    assert!(t.chars().all(|c| c.is_ascii_hexdigit() && !c.is_ascii_uppercase()));
}

#[test]
fn local_share_url_points_at_local_server() {
    assert_eq!(local_share_url("abc123"), "http://localhost:3000/recordings/abc123.mp4");
}

#[test]
fn panel_expiry_only_on_paid_tiers() {
    let now: i128 = 1_700_000_000 * 1_000_000_000;
    assert_eq!(panel_expiry(Tier::Free, now, 7), None);
    assert_eq!(panel_expiry(Tier::Pro, now, 7), Some(now + 7 * DAY_NANOS));
    assert_eq!(panel_expiry(Tier::Team, now, 365), Some(now + 365 * DAY_NANOS));
}

#[test]
fn share_made_status_lines() {
    assert_eq!(share_made_status(true, "x.mp4"), "Share link generated and file copied to web server!");
    assert_eq!(share_made_status(false, "recordings/a.mp4"), "Share link generated (file at: recordings/a.mp4)");
}

#[test]
fn share_notes_by_tier() {
    assert_eq!(share_notes(true, true, Tier::Free), vec!["⚡ Free: view-only"]);
    assert_eq!(
        share_notes(true, true, Tier::Pro),
        vec!["📥 Download enabled", "🔑 Password protected", "⏰ Custom expiry"]
    );
    assert_eq!(share_notes(false, true, Tier::Team), vec!["🔑 Password protected", "⏰ Custom expiry"]);
    assert_eq!(share_notes(false, false, Tier::Pro), vec!["⏰ Custom expiry"]);
}

#[test]
fn free_tier_links_never_download() {
    assert!(!link_download_enabled(true, Tier::Free));
    assert!(!link_download_enabled(false, Tier::Pro));
    assert!(link_download_enabled(true, Tier::Pro));
    assert!(link_download_enabled(true, Tier::Team));
}
