use phantom::billing::entitlement::{
    format_instant, instant_from_parts, parse_instant, DailyLimitReached, EntitlementRow, RowError,
    DAY_NANOS, NANOS_PER_SEC,
};
use phantom::billing::paywall::PaywallState;
use phantom::billing::stripe::{StripeClient, PRO_MONTHLY};
use phantom::billing::tier::Tier;

const JAN_1_2024: i128 = 1_704_067_200 * NANOS_PER_SEC;

fn row(tier: &str, verified_at: i128, count: u32, reset_at: i128) -> EntitlementRow {
    EntitlementRow { tier: tier.to_string(), verified_at, daily_ai_count: count, daily_ai_reset_at: reset_at }
}

#[test]
fn tier_names_round_trip() {
    for t in [Tier::Free, Tier::Pro, Tier::Team] {
        assert_eq!(Tier::from_str(t.as_str()), t);
    }
    assert_eq!(Tier::Free.as_str(), "free");
    assert_eq!(Tier::Pro.as_str(), "pro");
    assert_eq!(Tier::Team.as_str(), "team");
}

#[test]
fn unknown_tier_name_is_free() {
    assert_eq!(Tier::from_str("enterprise"), Tier::Free);
    assert_eq!(Tier::from_str("PRO"), Tier::Free);
    assert_eq!(Tier::from_str(""), Tier::Free);
}

#[test]
fn daily_limits() {
    assert_eq!(Tier::Free.daily_ai_limit(), 3);
    assert_eq!(Tier::Pro.daily_ai_limit(), u32::MAX);
    assert_eq!(Tier::Team.daily_ai_limit(), u32::MAX);
    assert!(!Tier::Free.is_paid());
    assert!(Tier::Pro.is_paid());
}

#[test]
fn paywall_texts() {
    let p = PaywallState::default();
    assert!(!p.is_visible);
    assert_eq!(p.title, "Upgrade to Phantom Pro");
    assert_eq!(p.feature_name, "Pro Features");
    let mut f = PaywallState::for_feature("Chapters", "Smart chapters for every recording.");
    assert!(f.is_visible);
    assert_eq!(f.title, "Upgrade to Phantom Pro");
    assert_eq!(f.feature_name, "Chapters");
    assert_eq!(f.description, "Smart chapters for every recording.");
    f.dismiss();
    assert!(!f.is_visible);
    assert_eq!(f.feature_name, "Chapters");
    let d = PaywallState::daily_limit_reached();
    assert!(d.is_visible);
    assert_eq!(d.title, "Daily Limit Reached");
    assert_eq!(d.feature_name, "Unlimited Summaries");
    assert_eq!(
        d.description,
        "You've used all 3 of your free daily AI summaries. Upgrade to Pro for unlimited on-device and cloud intelligence."
    );
}

#[test]
fn rfc3339_instants() {
    assert_eq!(parse_instant("2024-01-01T00:00:00Z"), Some(JAN_1_2024));
    assert_eq!(parse_instant("2024-01-01T01:00:00+01:00"), Some(JAN_1_2024));
    assert_eq!(parse_instant("2024-01-01T00:00:00.5Z"), Some(JAN_1_2024 + NANOS_PER_SEC / 2));
    assert_eq!(parse_instant("not a date"), None);
    assert_eq!(format_instant(JAN_1_2024).as_deref(), Some("2024-01-01T00:00:00+00:00"));
    assert_eq!(format_instant(-1).as_deref(), Some("1969-12-31T23:59:59.999999999+00:00"));
    assert_eq!(instant_from_parts(-1, 500_000_000), -NANOS_PER_SEC / 2);
}

#[test]
fn row_from_columns() {
    let r = EntitlementRow::from_columns("pro".to_string(), "2024-01-01T00:00:00Z", 2, "2024-01-02T00:00:00Z").unwrap();
    assert_eq!(r.tier, "pro");
    assert_eq!(r.verified_at, JAN_1_2024);
    assert_eq!(r.daily_ai_count, 2);
    assert_eq!(r.daily_ai_reset_at, JAN_1_2024 + DAY_NANOS);
    assert_eq!(r.reset_at_text().as_deref(), Some("2024-01-02T00:00:00+00:00"));
    assert_eq!(
        EntitlementRow::from_columns("pro".to_string(), "yesterday", 0, "2024-01-02T00:00:00Z").err(),
        Some(RowError::VerifiedAt)
    );
    assert_eq!(
        EntitlementRow::from_columns("pro".to_string(), "2024-01-01T00:00:00Z", 0, "2024-01-02 00:00:00").err(),
        Some(RowError::DailyAiResetAt)
    );
}

#[test]
fn offline_grace_keeps_paid_tier_for_seven_days() {
    let r = row("pro", JAN_1_2024, 0, JAN_1_2024);
    assert_eq!(r.effective_tier(JAN_1_2024 + 7 * DAY_NANOS), Tier::Pro);
    assert_eq!(r.effective_tier(JAN_1_2024 + 7 * DAY_NANOS + 1), Tier::Free);
    let t = row("team", JAN_1_2024, 0, JAN_1_2024);
    assert_eq!(t.effective_tier(JAN_1_2024 + DAY_NANOS), Tier::Team);
    let f = row("free", JAN_1_2024, 0, JAN_1_2024);
    assert_eq!(f.effective_tier(JAN_1_2024), Tier::Free);
}

#[test]
fn free_tier_allows_three_per_window() {
    let mut r = row("free", JAN_1_2024, 0, JAN_1_2024 + DAY_NANOS);
    let now = JAN_1_2024 + 3600 * NANOS_PER_SEC;
    assert_eq!(r.check_and_increment_daily_ai(now), Ok(1));
    assert_eq!(r.check_and_increment_daily_ai(now), Ok(2));
    assert_eq!(r.check_and_increment_daily_ai(now), Ok(3));
    let e = r.check_and_increment_daily_ai(now).unwrap_err();
    assert_eq!(e, DailyLimitReached { limit: 3, resets_in_hours: 23, resets_in_minutes: 0 });
    assert_eq!(r.daily_ai_count, 3);
    assert_eq!(
        e.message(),
        "You've used all 3 AI summaries for today (resets in 23h 0m). Upgrade to Phantom Pro for unlimited AI."
    );
}

#[test]
fn window_resets_after_reset_time() {
    let mut r = row("free", JAN_1_2024, 3, JAN_1_2024);
    let later = JAN_1_2024 + 90 * 60 * NANOS_PER_SEC;
    assert_eq!(r.check_and_increment_daily_ai(later), Ok(1));
    assert_eq!(r.daily_ai_reset_at, later + DAY_NANOS);
}

#[test]
fn limit_message_counts_minutes() {
    let mut r = row("free", JAN_1_2024, 3, JAN_1_2024 + (5 * 3600 + 42 * 60 + 30) * NANOS_PER_SEC);
    let e = r.check_and_increment_daily_ai(JAN_1_2024).unwrap_err();
    assert_eq!(e.resets_in_hours, 5);
    assert_eq!(e.resets_in_minutes, 42);
}

#[test]
fn paid_tier_is_not_capped() {
    let mut r = row("pro", JAN_1_2024, 1000, JAN_1_2024 + DAY_NANOS);
    assert_eq!(r.check_and_increment_daily_ai(JAN_1_2024), Ok(1001));
}

#[test]
fn lapsed_paid_tier_is_capped_as_free() {
    let now = JAN_1_2024 + 8 * DAY_NANOS;
    let mut r = row("pro", JAN_1_2024, 3, now + DAY_NANOS);
    let e = r.check_and_increment_daily_ai(now).unwrap_err();
    assert_eq!(e.limit, 3);
    assert_eq!(r.daily_ai_count, 3);
    let mut g = row("pro", JAN_1_2024, 3, JAN_1_2024 + 8 * DAY_NANOS);
    assert_eq!(g.check_and_increment_daily_ai(JAN_1_2024 + 6 * DAY_NANOS), Ok(4));
}

#[test]
fn stripe_forms() {
    let f = StripeClient::checkout_form(PRO_MONTHLY, "a@b.c", "https://ok", "https://no");
    let pairs: Vec<(&str, &str)> = f.iter().map(|(k, v)| (k.as_str(), v.as_str())).collect();
    assert_eq!(
        pairs,
        vec![
            ("success_url", "https://ok"),
            ("cancel_url", "https://no"),
            ("customer_email", "a@b.c"),
            ("mode", "subscription"),
            ("line_items[0][price]", "price_PHANTOM_PRO_MONTHLY"),
            ("line_items[0][quantity]", "1"),
        ]
    );
    let p = StripeClient::portal_form("cus_1", "https://back");
    assert_eq!(p[0], ("customer".to_string(), "cus_1".to_string()));
    assert_eq!(p[1], ("return_url".to_string(), "https://back".to_string()));
    assert_eq!(StripeClient::checkout_url(), "https://api.stripe.com/v1/checkout/sessions");
    assert_eq!(StripeClient::portal_url(), "https://api.stripe.com/v1/billing_portal/sessions");
    assert_eq!(StripeClient::new("sk".to_string()).auth_header(), "Bearer sk");
}
