use hstack::keystore::{
    deletion_outcome, key_from_keychain, session_token, KeyCache, KeychainDelete, KeychainRead,
    SecureStore, SYNC_TOKEN_KEY,
};
use hstack::provider::{ProviderKind, RateLimitConfig};
use hstack::ratelimit::{RateLimiter, MINUTE_NANOS, SECOND_NANOS};
use hstack::settings::{
    complete_onboarding_in, remove_provider, sync_mode_from_choice, upsert_provider_into,
    user_locale, SavedProvider, SyncMode, UserSettings,
};

fn provider(id: &str, name: &str) -> SavedProvider {
    SavedProvider {
        id: id.to_string(),
        name: name.to_string(),
        kind: ProviderKind::OpenAiCompatible,
        endpoint: "http://localhost:1234/v1".to_string(),
        model_name: "m".to_string(),
        rate_limit: None,
    }
}

#[test]
fn first_provider_becomes_the_default() {
    let mut s = UserSettings::default();
    assert!(s.active_provider().is_none());
    upsert_provider_into(&mut s, provider("p1", "One"));
    upsert_provider_into(&mut s, provider("p2", "Two"));
    assert_eq!(s.default_provider_id.as_deref(), Some("p1"));
    assert_eq!(s.active_provider().map(|p| p.name.clone()), Some("One".to_string()));
    upsert_provider_into(&mut s, provider("p1", "One again"));
    assert_eq!(s.providers.len(), 2);
    assert_eq!(s.providers[0].name, "One again");
}

#[test]
fn removing_the_default_promotes_the_next() {
    let mut s = UserSettings::default();
    upsert_provider_into(&mut s, provider("p1", "One"));
    upsert_provider_into(&mut s, provider("p2", "Two"));
    remove_provider(&mut s, "p1");
    assert_eq!(s.providers.len(), 1);
    assert_eq!(s.default_provider_id.as_deref(), Some("p2"));
    remove_provider(&mut s, "missing");
    assert_eq!(s.default_provider_id.as_deref(), Some("p2"));
    remove_provider(&mut s, "p2");
    assert!(s.providers.is_empty());
    assert_eq!(s.default_provider_id, None);
}

#[test]
fn onboarding_and_locale() {
    assert_eq!(sync_mode_from_choice("CloudOfficial"), SyncMode::CloudOfficial);
    assert_eq!(sync_mode_from_choice("CloudCustom"), SyncMode::CloudCustom);
    assert_eq!(sync_mode_from_choice("cloudofficial"), SyncMode::LocalOnly);
    let mut s = UserSettings::default();
    complete_onboarding_in(&mut s, "CloudCustom");
    assert!(s.onboarding_complete);
    assert_eq!(s.sync_mode, SyncMode::CloudCustom);
    assert_eq!(user_locale(&s), ("en-US".to_string(), true));
    s.locale = Some("fr-FR".to_string());
    s.hour12 = Some(false);
    assert_eq!(user_locale(&s), ("fr-FR".to_string(), false));
}

#[test]
fn key_cache_reads_back_what_was_written() {
    let mut c = KeyCache::new();
    assert_eq!(c.get("a"), None);
    c.insert("a", "k1");
    c.insert("b", "k2");
    c.insert("a", "k3");
    assert_eq!(c.get("a"), Some("k3".to_string()));
    assert_eq!(c.get("b"), Some("k2".to_string()));
    c.remove("a");
    assert_eq!(c.get("a"), None);
    assert_eq!(c.get("b"), Some("k2".to_string()));
    assert_eq!(SecureStore::SERVICE_NAME, "hstack-llm-service");
    assert_eq!(SYNC_TOKEN_KEY, "hstack-sync-token");
}

#[test]
fn keychain_answers_become_results() {
    assert_eq!(key_from_keychain(KeychainRead::Found("k".to_string())), Ok("k".to_string()));
    assert_eq!(key_from_keychain(KeychainRead::NoEntry), Ok(String::new()));
    assert_eq!(
        key_from_keychain(KeychainRead::Failed("locked".to_string())),
        Err("Failed to retrieve secret from OS Keychain: locked".to_string())
    );
    assert_eq!(deletion_outcome(KeychainDelete::Deleted), Ok(()));
    assert_eq!(deletion_outcome(KeychainDelete::NoEntry), Ok(()));
    assert_eq!(
        deletion_outcome(KeychainDelete::Failed("locked".to_string())),
        Err("Failed to delete secret from OS Keychain: locked".to_string())
    );
    assert_eq!(session_token(String::new()), None);
    assert_eq!(session_token("t".to_string()), Some("t".to_string()));
}

#[test]
fn rate_limiter_keeps_to_both_budgets() {
    let mut rl = RateLimiter::new(RateLimitConfig { requests_per_second: 2, requests_per_minute: 3, tokens_per_minute: 0 });
    assert!(rl.check_at(0));
    assert!(rl.check_at(10));
    // the second's budget is spent
    assert!(!rl.check_at(20));
    // a second later (strictly more than one second) the first two have left the second's window
    assert!(rl.check_at(SECOND_NANOS + 11));
    // the minute's budget is now spent
    assert!(!rl.check_at(3 * SECOND_NANOS));
    // after the minute, there is room again
    assert!(rl.check_at(MINUTE_NANOS + SECOND_NANOS + 12));
}

#[test]
fn rate_limiter_with_zero_budget_refuses() {
    let mut rl = RateLimiter::new(RateLimitConfig { requests_per_second: 0, requests_per_minute: 10, tokens_per_minute: 0 });
    assert!(!rl.check_at(0));
    assert!(!rl.check());
}

#[test]
fn rate_limiter_check_records_what_it_allows() {
    let mut rl = RateLimiter::new(RateLimitConfig { requests_per_second: 1000, requests_per_minute: 2, tokens_per_minute: 0 });
    assert!(rl.check());
    assert!(rl.check());
    assert!(!rl.check());
}
