use scraper_bot::api::auth::{bearer_token, hash_api_key, validate_api_key, verify_key, ApiKeyRow, AuthError, AuthFailure};
use scraper_bot::api::handlers::{
    api_key_from, api_search_config, check_boletin, check_quota, check_search_access, email_taken, register_response,
    search_started, usage_response, validate_registration, RegisterRequest, INVALID_BOLETIN_MESSAGE,
};
use scraper_bot::api::rate_limit::RateLimiter;
use scraper_bot::dates::{SimpleDate, SimpleDateTime};
use scraper_bot::webhook::{signature_required, webhook_action, StripeEventData, StripeWebhookPayload, WebhookAction};

#[test]
fn bearer_header_is_read() {
    assert_eq!(bearer_token(Some("Bearer  sk-scraper-abc ")).ok(), Some("sk-scraper-abc".to_string()));
    assert!(matches!(bearer_token(None), Err(AuthFailure::MissingHeader)));
    assert!(matches!(bearer_token(Some("Basic abc")), Err(AuthFailure::BadHeaderFormat)));
    assert_eq!(AuthError::of(AuthFailure::BadHeaderFormat).error, "Invalid Authorization header format. Use: Bearer <api_key>");
    assert_eq!(AuthError::of(AuthFailure::UnknownKey).error, "Invalid API key");
}

/// An argon2id hash (low cost: m=8, t=1, p=1, fixed salt) of the key
/// `sk-scraper-0c3c9a6e`; verification reads the parameters from the hash.
const STORED_HASH: &str = "$argon2id$v=19$m=8,t=1,p=1$c2NyYXBlcmJvdHNhbHQ$OGh8rGeLpiJfVU3ymANbhCJ7hJlCbxEQcpH25FeV2bU";

#[test]
fn hashed_keys_validate() {
    let key = api_key_from("0c3c9a6e");
    assert_eq!(key, "sk-scraper-0c3c9a6e");
    assert!(verify_key(&key, STORED_HASH));
    assert!(!verify_key("sk-scraper-other", STORED_HASH));
    assert!(!verify_key(&key, "not a hash"));
}

#[test]
fn fresh_hash_verifies_its_key() {
    let hash = hash_api_key("sk-scraper-0c3c9a6e").unwrap();
    assert!(hash.starts_with("$argon2id$v=19$m=19456,t=2,p=1$"));
    assert!(verify_key("sk-scraper-0c3c9a6e", &hash));
}

#[test]
fn malformed_hash_and_key_are_refused() {
    let rows = vec![ApiKeyRow { id: "k0".to_string(), key_hash: "broken".to_string(), plan: "pro".to_string(), active: true }];
    assert!(matches!(validate_api_key(&rows, "plain-key"), Err(AuthFailure::BadKeyFormat)));
    assert!(matches!(validate_api_key(&rows, "sk-scraper-nope"), Err(AuthFailure::UnknownKey)));
}

#[test]
fn first_accepting_row_gives_the_key() {
    let rows = vec![
        ApiKeyRow { id: "k0".to_string(), key_hash: "broken".to_string(), plan: "pro".to_string(), active: true },
        ApiKeyRow { id: "k1".to_string(), key_hash: STORED_HASH.to_string(), plan: "free".to_string(), active: true },
        ApiKeyRow { id: "k2".to_string(), key_hash: STORED_HASH.to_string(), plan: "pro".to_string(), active: true },
    ];
    match validate_api_key(&rows, "sk-scraper-0c3c9a6e") {
        Ok(k) => {
            assert_eq!(k.id, "k1");
            assert_eq!(k.plan, "free");
        }
        Err(_) => panic!("the key must validate"),
    }
    assert!(matches!(validate_api_key(&rows, "sk-scraper-other"), Err(AuthFailure::UnknownKey)));
}

#[test]
fn registration_is_checked() {
    let ok = RegisterRequest { email: "a@b.es".to_string(), company: "ACME".to_string() };
    assert!(validate_registration(&ok).is_ok());
    let bad_email = RegisterRequest { email: "ab.es".to_string(), company: "ACME".to_string() };
    let e = validate_registration(&bad_email).err().unwrap();
    assert_eq!((e.status, e.body.error.as_str()), (400, "Valid email is required"));
    let empty = RegisterRequest { email: String::new(), company: String::new() };
    assert_eq!(validate_registration(&empty).err().unwrap().body.error, "Valid email is required");
    let no_company = RegisterRequest { email: "a@b.es".to_string(), company: String::new() };
    assert_eq!(validate_registration(&no_company).err().unwrap().body.error, "Company name is required");
    let taken = email_taken();
    assert_eq!((taken.status, taken.body.error.as_str()), (409, "Email already registered"));
    let r = register_response("sk-scraper-x".to_string());
    assert_eq!((r.plan.as_str(), r.monthly_limit), ("free", 100));
    assert_eq!(r.message, "IMPORTANT: Save this API key now. It will NOT be shown again.");
}

#[test]
fn searches_are_checked() {
    assert!(check_quota(99, 100).is_ok());
    let e = check_quota(100, 100).err().unwrap();
    assert_eq!(e.status, 429);
    assert_eq!(e.body.error, "Monthly limit exceeded (100/100). Upgrade to pro for higher limits.");
    assert!(check_boletin("borm_murcia").is_ok());
    let b = check_boletin("boja").err().unwrap();
    assert_eq!((b.status, b.body.error.as_str()), (400, INVALID_BOLETIN_MESSAGE));
    let now = SimpleDateTime { date: SimpleDate { year: 2026, month: 4, day: 21 }, hour: 8, minute: 0, second: 0 };
    let c = api_search_config("boe_rss", "", now);
    assert_eq!((c.name.as_str(), c.url.as_str(), c.notify_mode.as_str()), ("API: boe_rss", "boe_rss", "none"));
    assert_eq!(c.keywords, None);
    assert_eq!(api_search_config("boe_rss", "obras", now).keywords.as_deref(), Some("obras"));
    let s = search_started("id-1".to_string());
    assert_eq!((s.status.as_str(), s.message.as_str()), ("running", "Search started. Poll /api/v1/search/{id}/status for updates."));
}

#[test]
fn stored_searches_are_private() {
    assert_eq!(check_search_access(None, "k").err().unwrap().status, 404);
    assert_eq!(check_search_access(Some("other"), "k").err().unwrap().body.error, "You don't have access to this search");
    assert!(check_search_access(Some("k"), "k").is_ok());
}

#[test]
fn usage_never_goes_negative() {
    let u = usage_response("free".to_string(), "2026-04".to_string(), Some((120, 100)), 100);
    assert_eq!((u.request_count, u.limit_count, u.remaining), (120, 100, 0));
    let fresh = usage_response("pro".to_string(), "2026-04".to_string(), None, 10_000);
    assert_eq!((fresh.request_count, fresh.limit_count, fresh.remaining), (0, 10_000, 10_000));
}

#[test]
fn rate_limits_per_window() {
    let mut rl = RateLimiter::new();
    let second: u64 = 1_000_000_000;
    for i in 0..10u64 {
        assert_eq!(rl.check("k", i * second), (true, None));
    }
    let (allowed, retry) = rl.check("k", 10 * second);
    assert!(!allowed);
    assert_eq!(retry, Some(50));
    assert_eq!(rl.check("other", 10 * second), (true, None));
    assert_eq!(rl.check("k", 61 * second), (true, None));
    assert_eq!(RateLimiter::limit_for_plan("pro"), 60);
    assert_eq!(RateLimiter::limit_for_plan("free"), 10);
    assert_eq!(RateLimiter::monthly_limit_for_plan("pro"), 10_000);
    rl.cleanup(200 * second);
    assert_eq!(rl.check_with_limit("k", 1, 200 * second), (true, None));
}

fn event(kind: &str, data: StripeEventData) -> StripeWebhookPayload {
    StripeWebhookPayload { event_type: kind.to_string(), data }
}

fn no_data() -> StripeEventData {
    StripeEventData {
        id: None,
        customer: None,
        subscription: None,
        payment_intent: None,
        amount_total: None,
        metadata_telegram_id: None,
        metadata_searches_count: None,
    }
}

#[test]
fn webhook_events_are_decided() {
    let mut d = no_data();
    d.id = Some("cs_1".to_string());
    d.amount_total = Some(2450);
    d.metadata_telegram_id = Some("12345".to_string());
    d.metadata_searches_count = Some("3".to_string());
    match webhook_action(&event("checkout.session.completed", d)) {
        WebhookAction::ActivateSubscription { telegram_id, session_id, amount_cents, searches_count, .. } => {
            assert_eq!((telegram_id, session_id.as_str(), amount_cents, searches_count), (12345, "cs_1", 2450, 3));
        }
        _ => panic!("a completed checkout activates the subscription"),
    }
    assert!(matches!(webhook_action(&event("checkout.session.completed", no_data())), WebhookAction::MissingTelegramId));
    let mut f = no_data();
    f.customer = Some("cus_9".to_string());
    match webhook_action(&event("invoice.payment_failed", f)) {
        WebhookAction::MarkPastDue { customer } => assert_eq!(customer, "cus_9"),
        _ => panic!("a failed payment marks the customer"),
    }
    let mut g = no_data();
    g.id = Some("sub_7".to_string());
    match webhook_action(&event("customer.subscription.deleted", g)) {
        WebhookAction::CancelSubscription { subscription } => assert_eq!(subscription, "sub_7"),
        _ => panic!("a deleted subscription is cancelled"),
    }
    assert!(matches!(webhook_action(&event("charge.refunded", no_data())), WebhookAction::Ignore));
    assert!(signature_required("whsec_real"));
    assert!(!signature_required("whsec_..."));
    assert!(!signature_required(""));
}
