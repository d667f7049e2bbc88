use rust_context::generator::Generator;
use rust_context::token::TokenStore;
use rust_context::verification::{VerificationCode, VerificationStore};

const MINUTE: i64 = 60_000_000;

#[test]
fn test_verification_code_length() {
    let code = Generator::verification_code();
    assert_eq!(code.len(), 6);
    assert!(code.chars().all(|c| c.is_digit(10)));
}

#[test]
fn test_session_token_unique() {
    let t1 = Generator::new_session_token();
    let t2 = Generator::new_session_token();
    assert_ne!(t1, t2);
    assert!(!t1.contains('-'));
}

#[test]
fn test_api_token_length() {
    let token = Generator::api_token();
    assert_eq!(token.len(), 16);
}

#[test]
fn test_token_uniqueness_bulk() {
    let mut seen: Vec<String> = Vec::new();
    for _ in 0..1000 {
        let token = Generator::new_session_token();
        assert!(!seen.contains(&token));
        seen.push(token);
    }
}

#[test]
fn test_verification_code() {
    let code = Generator::verification_code();
    assert_eq!(code.len(), 6);
    assert!(code.chars().all(|c| c.is_ascii_digit()));
}

#[test]
fn test_new_session_token() {
    let token1 = Generator::new_session_token();
    let token2 = Generator::new_session_token();
    assert_eq!(token1.len(), 32);
    assert_eq!(token2.len(), 32);
    assert_ne!(token1, token2);
}

#[test]
fn test_api_token() {
    let token = Generator::api_token();
    assert_eq!(token.len(), 16);
    assert!(token.chars().all(|c| c.is_ascii_hexdigit()));
}

#[test]
fn test_token_store() {
    let user_id = 123;
    let ttl = 7;
    let token_store = TokenStore::new(user_id, ttl);
    assert_eq!(token_store.user_id, user_id);
    assert_eq!(token_store.token.len(), 32);
    assert!(token_store.expires_at > token_store.created_at);
    assert!(!token_store.is_expired());
    assert!(token_store.is_valid(&token_store.token));
    assert!(!token_store.is_valid("invalid_token"));
}

#[test]
fn test_expired_token() {
    let token_store = TokenStore::new(123, -1);
    assert!(token_store.is_expired());
    assert!(!token_store.is_valid(&token_store.token));
}

#[test]
fn token_lives_exactly_its_days() {
    let t = TokenStore::new_at(5, 2, "abc".to_string(), 1_000);
    assert_eq!(t.created_at, 1_000);
    assert_eq!(t.expires_at, 1_000 + 2 * 86_400_000_000);
    assert!(t.is_valid_at("abc", t.expires_at));
    assert!(!t.is_valid_at("abc", t.expires_at + 1));
    assert!(!t.is_valid_at("abd", 1_000));
}

#[test]
fn verification_test_new() {
    let store = VerificationStore::new();
    assert!(store.get("test").is_none());
}

#[test]
fn test_verification_code_new() {
    let code = VerificationCode::new("test@mail.ru".to_string(), "123456".to_string(), 15);
    assert_eq!(code.email, "test@mail.ru");
    assert_eq!(code.code, "123456");
    assert!(!code.is_expired());
}

#[test]
fn test_verification_code_generate() {
    let code = VerificationCode::generate("test@mail.ru".to_string(), 15);
    assert_eq!(code.email, "test@mail.ru");
    assert_eq!(code.code.len(), 6);
}

#[test]
fn test_verification_code_verify_success() {
    let mut code = VerificationCode::new("test@mail.ru".to_string(), "123456".to_string(), 15);
    let result = code.verify("123456");
    assert!(result);
}

#[test]
fn test_verification_code_verify_fail_wrong_code() {
    let mut code = VerificationCode::new("test@mail.ru".to_string(), "123456".to_string(), 15);
    let result = code.verify("425267");
    assert!(!result);
}

#[test]
fn test_verification_code_expired() {
    let code = VerificationCode::new_at("test@mail.ru".to_string(), "123456".to_string(), 0, 5_000);
    assert!(code.is_expired_at(5_000 + 10_000));
    assert!(!code.verify_at("123456", 5_000 + 10_000));
}

#[test]
fn test_verification_code_seconds() {
    let code = VerificationCode::new("test@mail.ru".to_string(), "123456".to_string(), 1);
    let remaining = code.remaining_seconds();
    assert!(remaining >= 0);
}

#[test]
fn verification_code_remaining_seconds_exact() {
    let code = VerificationCode::new_at("a@b.c".to_string(), "111111".to_string(), 1, 0);
    assert_eq!(code.remaining_seconds_at(0), 60);
    assert_eq!(code.remaining_seconds_at(30_500_000), 29);
    assert_eq!(code.remaining_seconds_at(MINUTE), 0);
    assert_eq!(code.remaining_seconds_at(MINUTE + 1), 0);
}

#[test]
fn verification_code_refused_before_creation() {
    let code = VerificationCode::new_at("a@b.c".to_string(), "111111".to_string(), 15, 1_000);
    assert!(code.is_created_at(999));
    assert!(!code.verify_at("111111", 999));
    assert!(code.verify_at("111111", 1_000));
}

#[test]
fn test_store_create_and_get() {
    let mut store = VerificationStore::new();
    let code = store.create("test@mail.ru", 15);
    let stored = store.get("test@mail.ru");
    assert!(stored.is_some());
    assert_eq!(stored.unwrap().code, code);
}

#[test]
fn test_store_verify_success() {
    let mut store = VerificationStore::new();
    let code = store.create("test@mail.com", 15);
    let result = store.verify("test@mail.com", &code);
    assert!(result);
}

#[test]
fn test_store_verify_fail() {
    let mut store = VerificationStore::new();
    store.create("test@mail.com", 15);
    let result = store.verify("test@mail.com", "000000");
    assert!(!result);
}

#[test]
fn test_store_remove() {
    let mut store = VerificationStore::new();
    store.create("test@mail.com", 15);
    let removed = store.remove("test@mail.com");
    assert!(removed.is_some());
    assert!(store.get("test@mail.com").is_none());
}

#[test]
fn test_cleanup_expired() {
    let mut store = VerificationStore::new();
    store.create_at("a@mail.com", 0, "111111".to_string(), 1_000);
    store.create_at("b@mail.com", 0, "222222".to_string(), 1_000);
    let removed = store.cleanup_expired_at(1_000 + 10_000);
    assert_eq!(removed, 2);
    assert!(store.get("a@mail.com").is_none());
}

#[test]
fn cleanup_keeps_live_codes() {
    let mut store = VerificationStore::new();
    store.create_at("a@mail.com", 0, "111111".to_string(), 0);
    store.create_at("b@mail.com", 15, "222222".to_string(), 0);
    assert_eq!(store.cleanup_expired_at(1), 1);
    assert!(store.get("a@mail.com").is_none());
    assert_eq!(store.get("b@mail.com").unwrap().code, "222222");
}

#[test]
fn test_can_resend_cooldown() {
    let mut store = VerificationStore::new();
    store.create_at("test@mail.com", 15, "123456".to_string(), 0);
    assert!(!store.can_resend_at("test@mail.com", 60, 0));
    assert!(store.can_resend_at("test@mail.com", 1, 1_000_000));
    assert!(store.can_resend_at("other@mail.com", 60, 0));
}

#[test]
fn test_get_or_create_returns_same_code() {
    let mut store = VerificationStore::new();
    let code1 = store.create("test@mail.com", 15);
    let code2 = store.create("test@mail.com", 15);
    assert_ne!(code1, code2);
}

#[test]
fn test_get_or_create_creates_new_if_expired() {
    let mut store = VerificationStore::new();
    let code1 = store.create("test@mail.com", 0);
    let code2 = store.create("test@mail.com", 0);
    assert_ne!(code1, code2);
}

#[test]
fn get_or_create_replaces_expired_code() {
    let mut store = VerificationStore::new();
    let code1 = store.get_or_create_at("test@mail.com", 0, "111111".to_string(), 0);
    let code2 = store.get_or_create_at("test@mail.com", 0, "222222".to_string(), 10_000);
    assert_eq!(code1, "111111");
    assert_eq!(code2, "222222");
}

#[test]
fn code_changed_in_place() {
    let mut store = VerificationStore::new();
    store.create_at("a@b.c", 15, "123456".to_string(), 0);
    assert!(store.get_mut("x@y.z").is_none());
    match store.get_mut("a@b.c") {
        Some(c) => c.code = "654321".to_string(),
        None => panic!("code missing"),
    }
    assert_eq!(store.get("a@b.c").unwrap().code, "654321");
    assert!(store.verify_at("a@b.c", "654321", 1));
}

#[test]
fn get_or_create_keeps_live_code() {
    let mut store = VerificationStore::new();
    let code1 = store.get_or_create_at("test@mail.com", 15, "111111".to_string(), 0);
    let code2 = store.get_or_create_at("test@mail.com", 15, "222222".to_string(), 10_000);
    assert_eq!(code1, "111111");
    assert_eq!(code2, "111111");
}

#[test]
fn store_verify_consumes_code() {
    let mut store = VerificationStore::new();
    store.create_at("a@b.c", 15, "654321".to_string(), 0);
    assert!(!store.verify_at("a@b.c", "000000", 1));
    assert!(store.get("a@b.c").is_some());
    assert!(store.verify_at("a@b.c", "654321", 1));
    assert!(store.get("a@b.c").is_none());
    assert!(!store.verify_at("a@b.c", "654321", 2));
}

#[test]
fn code_stays_under_its_address_when_changed() {
    let mut store = VerificationStore::new();
    store.create_at("a@b.c", 15, "123456".to_string(), 0);
    if let Some(c) = store.get_mut("a@b.c") {
        c.email = "x@y.z".to_string();
    }
    assert!(store.get("x@y.z").is_none());
    assert_eq!(store.get("a@b.c").unwrap().email, "x@y.z");
    assert!(store.verify_at("a@b.c", "123456", 1));
    assert!(store.get("a@b.c").is_none());
}
