use rust_context::errors::AppError;
use rust_context::models::{RegisterRequest, RegisterRequestWrapper};
use rust_context::register::{RegisterAction, RegisterEvent, RegisterPhase, Registration};
use rust_context::upload::{PhotoUpload, UploadAction, UploadEvent, UploadPhase};

fn field(name: Option<&str>, file_name: Option<&str>, content_type: Option<&str>) -> UploadEvent {
    UploadEvent::Field {
        name: name.map(|s| s.to_string()),
        file_name: file_name.map(|s| s.to_string()),
        content_type: content_type.map(|s| s.to_string()),
    }
}

#[test]
fn upload_ids_are_read_from_the_path() {
    assert_eq!(PhotoUpload::parse_ids("3", "9").unwrap(), (3, 9));
    match PhotoUpload::parse_ids("x", "y") {
        Err(AppError::BadRequest(m)) => assert_eq!(m, "Invalid event_id"),
        other => panic!("{:?}", other),
    }
    match PhotoUpload::parse_ids("3", "y") {
        Err(AppError::BadRequest(m)) => assert_eq!(m, "Invalid album_id"),
        other => panic!("{:?}", other),
    }
}

#[test]
fn upload_runs_to_the_answer() {
    let (mut u, a) = PhotoUpload::new(3, 9, 42);
    assert!(matches!(a, UploadAction::CheckMember { event_id: 3, user_id: 42 }));
    let a = u.step(UploadEvent::Member(true));
    assert!(matches!(a, UploadAction::CheckAlbum { album_id: 9, event_id: 3 }));
    let a = u.step(UploadEvent::AlbumInEvent(true));
    assert!(matches!(a, UploadAction::NextField));
    let a = u.step(field(Some("title"), None, None));
    assert!(matches!(a, UploadAction::NextField));
    let a = u.step(field(Some("photo"), Some("beach.png"), Some("image/png")));
    assert!(matches!(a, UploadAction::ReadField));
    let a = u.step(UploadEvent::Read(Some(1234)));
    match a {
        UploadAction::Insert { album_id, original_name, mime_type, file_size, uploaded_by } => {
            assert_eq!(album_id, 9);
            assert_eq!(original_name, "beach.png");
            assert_eq!(mime_type, "image/png");
            assert_eq!(file_size, 1234);
            assert_eq!(uploaded_by, 42);
        }
        other => panic!("{:?}", other),
    }
    let a = u.step(UploadEvent::Inserted { photo_id: 77, created_at: 5 });
    match a {
        UploadAction::Save { dir, stored_name, photo_id } => {
            assert_eq!(dir, "uploads/events/3/albums/9/photos");
            assert_eq!(stored_name, "77.png");
            assert_eq!(photo_id, 77);
        }
        other => panic!("{:?}", other),
    }
    assert!(!u.expects(&UploadEvent::Member(true)));
    assert!(u.expects(&UploadEvent::Saved));
    let a = u.step(UploadEvent::Saved);
    match a {
        UploadAction::Respond(p) => {
            assert_eq!(p.photo_id, 77);
            assert_eq!(p.file_name, "77.png");
            assert_eq!(p.original_name.as_deref(), Some("beach.png"));
            assert_eq!(p.mime_type.as_deref(), Some("image/png"));
            assert_eq!(p.file_size, Some(1234));
            assert_eq!(p.uploaded_by, 42);
            assert_eq!(p.created_at, 5);
            assert_eq!(p.url, "/events/3/albums/9/photos/77");
        }
        other => panic!("{:?}", other),
    }
    assert_eq!(u.phase, UploadPhase::Done);
}

#[test]
fn upload_defaults_for_a_bare_photo_field() {
    let (mut u, _) = PhotoUpload::new(1, 2, 3);
    u.step(UploadEvent::Member(true));
    u.step(UploadEvent::AlbumInEvent(true));
    u.step(field(Some("photo"), None, None));
    assert_eq!(u.file_name, "photo.jpg");
    assert_eq!(u.extension, "jpg");
    assert_eq!(u.mime_type, "application/octet-stream");
}

#[test]
fn upload_refusals() {
    let (mut u, _) = PhotoUpload::new(1, 2, 3);
    match u.step(UploadEvent::Member(false)) {
        UploadAction::Fail(AppError::UserNotInEvent(m)) => assert_eq!(m, "User not in event"),
        other => panic!("{:?}", other),
    }
    let (mut u, _) = PhotoUpload::new(1, 2, 3);
    u.step(UploadEvent::Member(true));
    match u.step(UploadEvent::AlbumInEvent(false)) {
        UploadAction::Fail(AppError::NotFound(m)) => assert_eq!(m, "Album not found"),
        other => panic!("{:?}", other),
    }
    let (mut u, _) = PhotoUpload::new(1, 2, 3);
    u.step(UploadEvent::Member(true));
    u.step(UploadEvent::AlbumInEvent(true));
    u.step(field(None, Some("a.png"), None));
    match u.step(UploadEvent::NoMoreFields) {
        UploadAction::Fail(AppError::BadRequest(m)) => assert_eq!(m, "No photo file provided"),
        other => panic!("{:?}", other),
    }
    let (mut u, _) = PhotoUpload::new(1, 2, 3);
    u.step(UploadEvent::Member(true));
    u.step(UploadEvent::AlbumInEvent(true));
    u.step(field(Some("photo"), Some("a.png"), None));
    match u.step(UploadEvent::Read(None)) {
        UploadAction::Fail(AppError::BadRequest(m)) => assert_eq!(m, "Failed to read file"),
        other => panic!("{:?}", other),
    }
}

fn request(email: &str, username: &str) -> RegisterRequestWrapper {
    RegisterRequestWrapper {
        user: RegisterRequest {
            email: email.to_string(),
            username: username.to_string(),
            birthday: Some("01-01-2000".to_string()),
            display_name: "User".to_string(),
            description: None,
        },
    }
}

#[test]
fn registration_runs_to_a_session() {
    let (mut r, a) = Registration::start(request("user@example.com", "validuser"), &Some("7".to_string()));
    match a {
        RegisterAction::FindEmail(e) => assert_eq!(e, "user@example.com"),
        other => panic!("{:?}", other),
    }
    assert_eq!(r.ttl_days, 7);
    match r.step(RegisterEvent::EmailTaken(Some(false))) {
        RegisterAction::FindUsername(u) => assert_eq!(u, "validuser"),
        other => panic!("{:?}", other),
    }
    match r.step(RegisterEvent::UsernameTaken(Some(false))) {
        RegisterAction::CreateUser { username, email, display_name, birthday, description } => {
            assert_eq!(username, "validuser");
            assert_eq!(email, "user@example.com");
            assert_eq!(display_name, "User");
            assert_eq!(birthday.as_deref(), Some("01-01-2000"));
            assert_eq!(description, None);
        }
        other => panic!("{:?}", other),
    }
    match r.step_with(RegisterEvent::Created(Ok(10)), "tok".to_string(), 1_000) {
        RegisterAction::StoreToken { user_id, token, expires_at } => {
            assert_eq!(user_id, 10);
            assert_eq!(token, "tok");
            assert_eq!(expires_at, 1_000 + 7 * 86_400_000_000);
        }
        other => panic!("{:?}", other),
    }
    match r.step(RegisterEvent::TokenStored(true)) {
        RegisterAction::Respond(resp) => {
            assert_eq!(resp.token, "tok");
            assert_eq!(resp.user_id, 10);
        }
        other => panic!("{:?}", other),
    }
    assert_eq!(r.phase, RegisterPhase::Done);
}

#[test]
fn registration_token_is_random_hex() {
    let (mut r, _) = Registration::start(request("user@example.com", "validuser"), &None);
    assert_eq!(r.ttl_days, 30);
    r.step(RegisterEvent::EmailTaken(Some(false)));
    r.step(RegisterEvent::UsernameTaken(Some(false)));
    match r.step(RegisterEvent::Created(Ok(1))) {
        RegisterAction::StoreToken { token, .. } => {
            assert_eq!(token.len(), 32);
            assert!(token.chars().all(|c| c.is_ascii_hexdigit()));
        }
        other => panic!("{:?}", other),
    }
}

#[test]
fn registration_refusals() {
    let (r, a) = Registration::start(request("notanemail", "validuser"), &None);
    assert_eq!(r.phase, RegisterPhase::Done);
    match a {
        RegisterAction::Fail(AppError::BadRequest(m)) => assert!(m.contains("\"email\"")),
        other => panic!("{:?}", other),
    }
    let (mut r, _) = Registration::start(request("user@example.com", "validuser"), &None);
    assert!(matches!(r.step(RegisterEvent::EmailTaken(Some(true))), RegisterAction::Fail(AppError::Conflict)));
    let (mut r, _) = Registration::start(request("user@example.com", "validuser"), &None);
    match r.step(RegisterEvent::EmailTaken(None)) {
        RegisterAction::Fail(AppError::Internal(m)) => assert_eq!(m, "Database error find user by email"),
        other => panic!("{:?}", other),
    }
    let (mut r, _) = Registration::start(request("user@example.com", "validuser"), &None);
    r.step(RegisterEvent::EmailTaken(Some(false)));
    assert!(matches!(r.step(RegisterEvent::UsernameTaken(Some(true))), RegisterAction::Fail(AppError::Conflict)));
    let (mut r, _) = Registration::start(request("user@example.com", "validuser"), &None);
    r.step(RegisterEvent::EmailTaken(Some(false)));
    r.step(RegisterEvent::UsernameTaken(Some(false)));
    assert!(matches!(
        r.step(RegisterEvent::Created(Err("duplicate key value (username)".to_string()))),
        RegisterAction::Fail(AppError::Conflict)
    ));
    let (mut r, _) = Registration::start(request("user@example.com", "validuser"), &None);
    r.step(RegisterEvent::EmailTaken(Some(false)));
    r.step(RegisterEvent::UsernameTaken(Some(false)));
    r.step_with(RegisterEvent::Created(Ok(3)), "t".to_string(), 0);
    match r.step(RegisterEvent::TokenStored(false)) {
        RegisterAction::Fail(AppError::Internal(m)) => assert_eq!(m, "Failed to create session"),
        other => panic!("{:?}", other),
    }
}

use rust_context::login::{CodeLogin, LoginAction, LoginEvent, LoginPhase};
use rust_context::models::VerifyCodeRequest;

fn code_request(email: &str, code: &str) -> VerifyCodeRequest {
    VerifyCodeRequest { email: email.to_string(), code: code.to_string() }
}

#[test]
fn sign_in_returns_existing_session() {
    let (mut l, a) = CodeLogin::start(code_request("a@b.com", "123456"), &None);
    match a {
        LoginAction::VerifyCode { email, code } => {
            assert_eq!(email, "a@b.com");
            assert_eq!(code, "123456");
        }
        other => panic!("{:?}", other),
    }
    match l.step(LoginEvent::CodeChecked(true)) {
        LoginAction::FindUser(e) => assert_eq!(e, "a@b.com"),
        other => panic!("{:?}", other),
    }
    assert!(matches!(l.step(LoginEvent::UserFound(Some(9))), LoginAction::FindToken(9)));
    match l.step(LoginEvent::TokenFound(Some("old".to_string()))) {
        LoginAction::RespondSession(r) => {
            assert!(!r.is_new_user);
            assert_eq!(r.token, "old");
            assert_eq!(r.user_id, 9);
        }
        other => panic!("{:?}", other),
    }
    assert_eq!(l.phase, LoginPhase::Done);
}

#[test]
fn sign_in_opens_new_session() {
    let (mut l, _) = CodeLogin::start(code_request("a@b.com", "123456"), &Some("2".to_string()));
    l.step(LoginEvent::CodeChecked(true));
    l.step(LoginEvent::UserFound(Some(9)));
    match l.step_with(LoginEvent::TokenFound(None), "new".to_string(), 10) {
        LoginAction::StoreToken { user_id, token, expires_at } => {
            assert_eq!(user_id, 9);
            assert_eq!(token, "new");
            assert_eq!(expires_at, 10 + 2 * 86_400_000_000);
        }
        other => panic!("{:?}", other),
    }
    match l.step(LoginEvent::TokenStored(true)) {
        LoginAction::RespondSession(r) => assert_eq!(r.token, "new"),
        other => panic!("{:?}", other),
    }
    let (mut l, _) = CodeLogin::start(code_request("a@b.com", "123456"), &None);
    l.step(LoginEvent::CodeChecked(true));
    l.step(LoginEvent::UserFound(Some(9)));
    match l.step(LoginEvent::TokenFound(None)) {
        LoginAction::StoreToken { token, .. } => {
            assert_eq!(token.len(), 36);
            assert_eq!(token.matches('-').count(), 4);
        }
        other => panic!("{:?}", other),
    }
}

#[test]
fn sign_in_refusals() {
    let (l, a) = CodeLogin::start(code_request("a@b.com", "123"), &None);
    assert_eq!(l.phase, LoginPhase::Done);
    match a {
        LoginAction::Fail(AppError::BadRequest(m)) => assert!(m.contains("\"code\"")),
        other => panic!("{:?}", other),
    }
    let (mut l, _) = CodeLogin::start(code_request("a@b.com", "123456"), &None);
    match l.step(LoginEvent::CodeChecked(false)) {
        LoginAction::Fail(AppError::BadRequest(m)) => assert_eq!(m, "Invalid or expired code"),
        other => panic!("{:?}", other),
    }
    let (mut l, _) = CodeLogin::start(code_request("a@b.com", "123456"), &None);
    l.step(LoginEvent::CodeChecked(true));
    assert!(matches!(l.step(LoginEvent::UserFound(None)), LoginAction::RespondNewUser));
    let (mut l, _) = CodeLogin::start(code_request("a@b.com", "123456"), &None);
    l.step(LoginEvent::CodeChecked(true));
    match l.step(LoginEvent::UserLookupFailed) {
        LoginAction::Fail(AppError::Internal(m)) => assert_eq!(m, "Database error find user by email"),
        other => panic!("{:?}", other),
    }
    let (mut l, _) = CodeLogin::start(code_request("a@b.com", "123456"), &None);
    l.step(LoginEvent::CodeChecked(true));
    l.step(LoginEvent::UserFound(Some(1)));
    match l.step(LoginEvent::TokenLookupFailed) {
        LoginAction::Fail(AppError::Internal(m)) => assert_eq!(m, "Database error find user by token"),
        other => panic!("{:?}", other),
    }
}

#[test]
fn sign_in_answer_statuses() {
    assert_eq!(LoginAction::RespondNewUser.response_status(), Some(201));
    let (mut l, a) = CodeLogin::start(code_request("a@b.com", "123456"), &None);
    assert_eq!(a.response_status(), None);
    l.step(LoginEvent::CodeChecked(true));
    l.step(LoginEvent::UserFound(Some(9)));
    let a = l.step(LoginEvent::TokenFound(Some("old".to_string())));
    assert_eq!(a.response_status(), Some(200));
    let (mut l, _) = CodeLogin::start(code_request("a@b.com", "123456"), &None);
    let a = l.step(LoginEvent::CodeChecked(false));
    assert_eq!(a.response_status(), Some(400));
    let (mut l, _) = CodeLogin::start(code_request("a@b.com", "123456"), &None);
    l.step(LoginEvent::CodeChecked(true));
    let a = l.step(LoginEvent::UserFound(None));
    assert_eq!(a.response_status(), Some(201));
}

use rust_context::avatar::{AvatarAction, AvatarEvent, AvatarOwner, AvatarPhase, AvatarUpload};

fn avatar_field(name: Option<&str>, file_name: Option<&str>) -> AvatarEvent {
    AvatarEvent::Field { name: name.map(|s| s.to_string()), file_name: file_name.map(|s| s.to_string()) }
}

#[test]
fn user_avatar_runs_to_the_answer() {
    let (mut u, a) = AvatarUpload::new(AvatarOwner::User, 8);
    assert!(matches!(a, AvatarAction::NextField));
    assert!(matches!(u.step(avatar_field(Some("photo"), Some("x.png"))), AvatarAction::NextField));
    assert!(matches!(u.step(avatar_field(Some("avatar"), None)), AvatarAction::NextField));
    assert!(matches!(u.step(avatar_field(Some("avatar"), Some("me.png"))), AvatarAction::ReadField));
    match u.step(AvatarEvent::Read(true)) {
        AvatarAction::Save { dir, remove_prefix, name } => {
            assert_eq!(dir, "uploads/avatars/user_8");
            assert_eq!(remove_prefix, "avatar.");
            assert_eq!(name, "avatar.png");
        }
        other => panic!("{:?}", other),
    }
    match u.step(AvatarEvent::Written) {
        AvatarAction::SetUrl { user_id, url } => {
            assert_eq!(user_id, 8);
            assert_eq!(url, "/user/avatar");
        }
        other => panic!("{:?}", other),
    }
    assert!(matches!(u.step(AvatarEvent::UrlSet(true)), AvatarAction::Respond));
    assert_eq!(u.phase, AvatarPhase::Done);
}

#[test]
fn event_avatar_runs_to_the_answer() {
    let (mut u, a) = AvatarUpload::new(AvatarOwner::Event(5), 8);
    assert!(matches!(a, AvatarAction::CheckMember { event_id: 5, user_id: 8 }));
    assert!(matches!(u.step(AvatarEvent::Member(true)), AvatarAction::CheckOwner { event_id: 5, user_id: 8 }));
    assert!(matches!(u.step(AvatarEvent::Owner(true)), AvatarAction::NextField));
    assert!(matches!(u.step(avatar_field(Some("avatar"), Some("logo"))), AvatarAction::ReadField));
    match u.step(AvatarEvent::Read(true)) {
        AvatarAction::Save { dir, name, .. } => {
            assert_eq!(dir, "uploads/event_avatars/event_5");
            assert_eq!(name, "avatar.jpg");
        }
        other => panic!("{:?}", other),
    }
    assert!(matches!(u.step(AvatarEvent::Written), AvatarAction::Respond));
}

fn avatar_failure(a: AvatarAction) -> AppError {
    match a {
        AvatarAction::Fail(e) => e,
        other => panic!("{:?}", other),
    }
}

#[test]
fn avatar_refusals() {
    let (mut u, _) = AvatarUpload::new(AvatarOwner::Event(5), 8);
    match avatar_failure(u.step(AvatarEvent::Member(false))) {
        AppError::Forbidden(m) => assert_eq!(m, "User not in event"),
        other => panic!("{:?}", other),
    }
    let (mut u, _) = AvatarUpload::new(AvatarOwner::Event(5), 8);
    u.step(AvatarEvent::Member(true));
    match avatar_failure(u.step(AvatarEvent::Owner(false))) {
        AppError::Forbidden(m) => assert_eq!(m, "Not enough permissions"),
        other => panic!("{:?}", other),
    }
    let (mut u, _) = AvatarUpload::new(AvatarOwner::User, 8);
    assert!(!u.expects(&AvatarEvent::Member(true)));
    match avatar_failure(u.step(AvatarEvent::NoMoreFields)) {
        AppError::BadRequest(m) => assert_eq!(m, "No file provided"),
        other => panic!("{:?}", other),
    }
    let (mut u, _) = AvatarUpload::new(AvatarOwner::User, 8);
    u.step(avatar_field(Some("avatar"), Some("a.gif")));
    match avatar_failure(u.step(AvatarEvent::Read(false))) {
        AppError::BadRequest(m) => assert_eq!(m, "Failed to read file"),
        other => panic!("{:?}", other),
    }
    for (owner, message) in [(AvatarOwner::User, "Failed to create user dir"), (AvatarOwner::Event(5), "Failed to create directory")] {
        let (mut u, _) = AvatarUpload::new(owner, 8);
        if owner != AvatarOwner::User {
            u.step(AvatarEvent::Member(true));
            u.step(AvatarEvent::Owner(true));
        }
        u.step(avatar_field(Some("avatar"), Some("a.gif")));
        u.step(AvatarEvent::Read(true));
        match avatar_failure(u.step(AvatarEvent::DirNotMade)) {
            AppError::Internal(m) => assert_eq!(m, message),
            other => panic!("{:?}", other),
        }
    }
    let (mut u, _) = AvatarUpload::new(AvatarOwner::User, 8);
    u.step(avatar_field(Some("avatar"), Some("a.gif")));
    u.step(AvatarEvent::Read(true));
    match avatar_failure(u.step(AvatarEvent::NotWritten)) {
        AppError::Internal(m) => assert_eq!(m, "Failed to save file"),
        other => panic!("{:?}", other),
    }
    let (mut u, _) = AvatarUpload::new(AvatarOwner::User, 8);
    u.step(avatar_field(Some("avatar"), Some("a.gif")));
    u.step(AvatarEvent::Read(true));
    u.step(AvatarEvent::Written);
    match avatar_failure(u.step(AvatarEvent::UrlSet(false))) {
        AppError::Internal(m) => assert_eq!(m, "Failed to update avatar"),
        other => panic!("{:?}", other),
    }
}
