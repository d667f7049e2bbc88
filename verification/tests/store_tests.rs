use rust_context::errors::AppError;
use rust_context::user::{UserStore, UserStoreError};

#[test]
fn user_test_new() {
    let store = UserStore::new();
    assert!(store.users_is_empty());
    assert!(store.users_by_email_is_empty());
    assert!(store.users_by_username_is_empty());
}

#[test]
fn user_store_test_new() {
    let store = UserStore::new();
    assert!(store.users_is_empty());
    assert!(store.users_by_email_is_empty());
    assert!(store.users_by_username_is_empty());
}

#[test]
fn added_user_is_found_every_way() {
    let mut store = UserStore::new();
    let r = store.add_user_at(
        10,
        "test".to_string(),
        "test@example.com".to_string(),
        None,
        "Test User".to_string(),
        Some("hi".to_string()),
        42,
    );
    assert_eq!(r, Ok(10));
    assert!(!store.users_is_empty());
    assert_eq!(store.get_user_by_id(10).unwrap().username, "test");
    assert_eq!(store.get_user_by_email("test@example.com").unwrap().user_id, 10);
    assert_eq!(store.get_user_by_username("test").unwrap().display_name, "Test User");
    assert_eq!(store.get_user_by_id(10).unwrap().created_at, 42);
    assert!(store.check_username("test"));
    assert!(!store.check_username("newhui"));
    assert!(!store.check_username(""));
    assert!(store.get_user_by_id(11).is_none());
}

#[test]
fn taken_address_or_name_is_refused() {
    let mut store = UserStore::new();
    store
        .add_user_at(1, "a".to_string(), "a@x.com".to_string(), None, "A".to_string(), None, 0)
        .unwrap();
    let same_email =
        store.add_user_at(2, "b".to_string(), "a@x.com".to_string(), None, "B".to_string(), None, 0);
    assert_eq!(same_email, Err(UserStoreError::EmailExists));
    let same_name =
        store.add_user_at(3, "a".to_string(), "c@x.com".to_string(), None, "C".to_string(), None, 0);
    assert_eq!(same_name, Err(UserStoreError::UsernameExists));
    assert!(store.get_user_by_id(2).is_none());
    assert!(store.get_user_by_id(3).is_none());
    assert_eq!(UserStoreError::EmailExists.message(), "Email already exists");
    assert_eq!(UserStoreError::UsernameExists.message(), "Username already exists");
}

#[test]
fn username_lookup_is_exact() {
    let mut store = UserStore::new();
    store
        .add_user_at(10, "testName".to_string(), "test@mail.ru".to_string(), None, "Tets Name".to_string(), None, 0)
        .unwrap();
    assert!(store.check_username("testName"));
    assert!(!store.check_username("testname"));
    store.clear();
    assert!(store.users_is_empty());
    assert!(!store.check_username("testName"));
}

#[test]
fn test_all_error_responses() {
    let test_cases = vec![
        (AppError::EventNotFound, 404u16, "Event not found"),
        (AppError::Conflict, 409, "Already exists"),
        (AppError::InvalidToken, 401, "Invalid token"),
        (AppError::DbError("worker crashed".to_string()), 500, "Database error"),
        (AppError::Internal("custom".into()), 500, "custom"),
        (AppError::BadRequest("bad".into()), 400, "bad"),
        (AppError::UserNotInEvent("no".into()), 403, "no"),
        (AppError::NotFound("missing".into()), 404, "missing"),
        (AppError::Unauthorized, 401, "Unauthorized"),
        (AppError::Forbidden("denied".into()), 403, "denied"),
    ];
    for (error, expected_status, expected_message) in test_cases {
        let (status, message) = error.to_response_parts();
        assert_eq!(status, expected_status, "Status mismatch for {:?}", expected_status);
        assert_eq!(message, expected_message);
    }
}

use rust_context::user::User;

fn user(id: i64, name: &str, email: &str) -> User {
    User::create_at(id, name.to_string(), email.to_string(), None, "Name".to_string(), None, None, 0)
}

#[test]
fn loaded_users_replace_the_cache() {
    let mut store = UserStore::new();
    store
        .add_user_at(1, "old".to_string(), "old@x.com".to_string(), None, "Old".to_string(), None, 0)
        .unwrap();
    store.load_users(vec![user(7, "dbuser", "dbuser@mail.com"), user(8, "other", "other@mail.com")]);
    assert!(store.get_user_by_id(1).is_none());
    assert!(!store.check_username("old"));
    assert_eq!(store.get_user_by_email("dbuser@mail.com").unwrap().user_id, 7);
    assert_eq!(store.get_user_by_username("other").unwrap().user_id, 8);
    store.load_users(Vec::new());
    assert!(store.users_is_empty());
}
