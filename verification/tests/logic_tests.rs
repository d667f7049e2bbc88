use rust_context::access::{
    can_manage_albums, check_invite_token, check_not_member, check_photo_delete,
    classify_create_user_error, creator_permissions, parse_event_time, parse_event_time_lenient,
    parse_id, parse_id_list, parse_new_permissions, session_ttl_days, text_contains,
};
use rust_context::errors::AppError;
use rust_context::permissions::EventPermissions;
use rust_context::polls::{check_poll_options, count_of_options, option_ids_for, tally_poll, PollOptionRow};
use rust_context::storage::{
    album_dir, avatar_field_file_name, avatar_answer, avatar_file_name, cache_control_value, content_etag, empty_etag,
    event_avatar_answer, first_avatar_file, first_photo_file, get_event_avatar_dir, invite_link,
    is_avatar_file, is_photo_file, not_modified, photo_answer, photo_url, stored_photo_name,
    upload_extension, user_avatar_dir, FileAnswer,
};
use rust_context::text::{i64_to_text, parse_i32, parse_i64, parse_u16, parse_u32, u64_to_text};

fn bad_request(r: AppError) -> String {
    match r {
        AppError::BadRequest(m) => m,
        other => panic!("expected BadRequest, got {:?}", other),
    }
}

#[test]
fn numbers_read_back_as_written() {
    for n in [0i64, 7, -7, 42, i64::MAX, i64::MIN, 1_000_000] {
        assert_eq!(parse_i64(&i64_to_text(n)), Some(n));
    }
    assert_eq!(u64_to_text(u64::MAX), "18446744073709551615");
    assert_eq!(i64_to_text(-12), "-12");
}

#[test]
fn numbers_parse_like_std() {
    assert_eq!(parse_i64("+5"), Some(5));
    assert_eq!(parse_i64("-"), None);
    assert_eq!(parse_i64(""), None);
    assert_eq!(parse_i64("12a"), None);
    assert_eq!(parse_i64("9223372036854775808"), None);
    assert_eq!(parse_i32("2147483648"), None);
    assert_eq!(parse_u16("65535"), Some(65535));
    assert_eq!(parse_u16("65536"), None);
    assert_eq!(parse_u16("-1"), None);
    assert_eq!(parse_u32("4294967295"), Some(u32::MAX));
}

#[test]
fn ids_are_read_or_refused() {
    assert_eq!(parse_id("15", "event_id").unwrap(), 15);
    assert_eq!(bad_request(parse_id("abc", "event_id").unwrap_err()), "Invalid event_id");
    assert_eq!(parse_new_permissions("6").unwrap(), 6);
    assert_eq!(bad_request(parse_new_permissions("x").unwrap_err()), "permissions must be number");
}

#[test]
fn id_lists_are_read_whole_or_refused() {
    assert_eq!(parse_id_list(None, "bad").unwrap(), Vec::<i64>::new());
    let ok = parse_id_list(Some(vec!["1".to_string(), "-2".to_string()]), "bad").unwrap();
    assert_eq!(ok, vec![1, -2]);
    let err = parse_id_list(Some(vec!["1".to_string(), "x".to_string()]), "Invalid item id").unwrap_err();
    assert_eq!(bad_request(err), "Invalid item id");
}

#[test]
fn creator_is_owner_and_admin() {
    let bits = creator_permissions();
    assert_eq!(bits, 6);
    let p = EventPermissions::new_value(bits);
    assert!(can_manage_albums(&p));
    assert!(!can_manage_albums(&EventPermissions::new_value(EventPermissions::MEMBER)));
}

#[test]
fn membership_and_invite_checks() {
    assert!(check_photo_delete(true, 1, 2).is_ok());
    assert!(check_photo_delete(false, 2, 2).is_ok());
    match check_photo_delete(false, 1, 2) {
        Err(AppError::Forbidden(m)) => assert_eq!(m, "Not enough permissions to delete this photo"),
        other => panic!("{:?}", other),
    }
    assert_eq!(bad_request(check_invite_token(None, 1).unwrap_err()), "Invalid or expired invite token");
    assert_eq!(bad_request(check_invite_token(Some(2), 1).unwrap_err()), "Token does not match this event");
    assert!(check_invite_token(Some(1), 1).is_ok());
    assert_eq!(bad_request(check_not_member(true).unwrap_err()), "User already in event");
    assert!(check_not_member(false).is_ok());
}

#[test]
fn failed_user_insert_is_classified() {
    assert!(text_contains("abc duplicate key xyz", "duplicate key"));
    assert!(!text_contains("dup", "duplicate"));
    assert!(matches!(
        classify_create_user_error("duplicate key value violates unique constraint \"users_username_key\""),
        AppError::Conflict
    ));
    assert!(matches!(classify_create_user_error("duplicate key on email"), AppError::Conflict));
    match classify_create_user_error("connection reset") {
        AppError::Internal(m) => assert_eq!(m, "Database error for create user"),
        other => panic!("{:?}", other),
    }
}

#[test]
fn session_lifetime_setting() {
    assert_eq!(session_ttl_days(&None), 30);
    assert_eq!(session_ttl_days(&Some("7".to_string())), 7);
    assert_eq!(session_ttl_days(&Some("seven".to_string())), 30);
}

#[test]
fn event_times_are_read_by_chrono() {
    assert_eq!(parse_event_time(&None, "bad").unwrap(), None);
    assert_eq!(
        parse_event_time(&Some("1970-01-01T00:00:01Z".to_string()), "bad").unwrap(),
        Some(1_000_000)
    );
    assert_eq!(
        bad_request(parse_event_time(&Some("tomorrow".to_string()), "Invalid start date format. Use ISO 8601").unwrap_err()),
        "Invalid start date format. Use ISO 8601"
    );
    assert_eq!(parse_event_time_lenient(&Some("tomorrow".to_string())), None);
    assert_eq!(parse_event_time_lenient(&Some("1970-01-01T00:01:00+00:00".to_string())), Some(60_000_000));
}

#[test]
fn poll_rules() {
    assert_eq!(bad_request(check_poll_options(1).unwrap_err()), "Poll must have at least 2 options");
    assert_eq!(bad_request(check_poll_options(21).unwrap_err()), "Too many options (max 20)");
    assert!(check_poll_options(2).is_ok());
    assert!(check_poll_options(20).is_ok());
    assert_eq!(count_of_options(true), 100);
    assert_eq!(count_of_options(false), 1);
}

#[test]
fn vote_places_become_option_ids() {
    let rows = vec![(0, 10i64), (1, 11), (2, 12)];
    assert_eq!(option_ids_for(&rows, &vec![2, 0]).unwrap(), vec![12, 10]);
    assert_eq!(bad_request(option_ids_for(&rows, &vec![1, 5, 7]).unwrap_err()), "Option index 5 not found");
}

#[test]
fn poll_tally_counts_votes() {
    let options = vec![
        PollOptionRow { option_id: 10, option_text: "Red".to_string(), position: 0 },
        PollOptionRow { option_id: 11, option_text: "Blue".to_string(), position: 1 },
    ];
    let votes = vec![(1i64, 10i64), (2, 11), (1, 11), (3, 99)];
    let t = tally_poll(&options, &votes, 1);
    assert_eq!(t.options, vec!["Red".to_string(), "Blue".to_string()]);
    assert_eq!(t.votes_count, vec![1, 2]);
    assert_eq!(t.own_vote, vec![0, 1]);
    assert_eq!(t.votes.len(), 3);
    assert_eq!(t.votes[1].option_index, 1);
    assert_eq!(t.votes[1].user_id, "2");
    assert_eq!(t.votes_count.iter().sum::<i32>() as usize, t.votes.len());
}

#[test]
fn storage_paths_and_names() {
    assert_eq!(album_dir(3, 9), "uploads/events/3/albums/9/photos");
    assert_eq!(photo_url(3, 9, 27), "/events/3/albums/9/photos/27");
    assert_eq!(get_event_avatar_dir(5), "uploads/event_avatars/event_5");
    assert_eq!(user_avatar_dir(8), "uploads/avatars/user_8");
    assert_eq!(avatar_file_name("png"), "avatar.png");
    assert!(is_avatar_file("avatar.png"));
    assert!(!is_avatar_file("avatarpng"));
    assert_eq!(stored_photo_name(27, "jpeg"), "27.jpeg");
    assert!(is_photo_file("27.jpeg", 27));
    assert!(!is_photo_file("270.jpeg", 27));
    assert_eq!(upload_extension("cat.PNG"), "PNG");
    assert_eq!(upload_extension("archive.tar.gz"), "gz");
    assert_eq!(upload_extension("noext"), "jpg");
    assert_eq!(upload_extension(".hidden"), "jpg");
    assert_eq!(cache_control_value(30), "public, max-age=30");
    assert_eq!(invite_link("abc"), "https://kruug.netlify.app/invite?token=abc");
}

#[test]
fn directory_search_takes_first_match() {
    let names = vec!["x.txt".to_string(), "avatar.png".to_string(), "avatar.jpg".to_string()];
    assert_eq!(first_avatar_file(&names), Some(1));
    assert_eq!(first_avatar_file(&vec!["a.png".to_string()]), None);
    let photos = vec!["270.jpg".to_string(), "27.png".to_string()];
    assert_eq!(first_photo_file(&photos, 27), Some(1));
    assert_eq!(first_photo_file(&photos, 2), None);
}

#[test]
fn entity_tags() {
    let tag = content_etag(b"hello");
    assert_eq!(tag, "\"ea8f163db38682925e4491c5e58d4bb3506ef8c14eb78a86e908c5624a67200f\"");
    assert_eq!(tag.len(), 66);
    assert_eq!(empty_etag(), "\"\"");
    assert!(not_modified(&Some(tag.clone()), &tag));
    assert!(!not_modified(&None, &tag));
    assert!(!not_modified(&Some("\"x\"".to_string()), &tag));
}

#[test]
fn photo_is_served_or_not_modified() {
    let tag = content_etag(b"img");
    match photo_answer("1.png", b"img", &None, 30) {
        FileAnswer::Serve { content_type, etag, cache_control } => {
            assert_eq!(content_type, "image/png");
            assert_eq!(etag, tag);
            assert_eq!(cache_control, "public, max-age=30");
        }
        other => panic!("{:?}", other),
    }
    assert!(matches!(photo_answer("1.png", b"img", &Some(tag), 30), FileAnswer::NotModified));
    match photo_answer("1", b"img", &None, 5) {
        FileAnswer::Serve { content_type, .. } => assert_eq!(content_type, "application/octet-stream"),
        other => panic!("{:?}", other),
    }
}

#[test]
fn avatar_answers() {
    let file = Some(("uploads/avatars/user_1/avatar.jpg".to_string(), b"face".to_vec()));
    match avatar_answer(false, &None, &None) {
        Err(AppError::NotFound(m)) => assert_eq!(m, "Avatar not found"),
        other => panic!("{:?}", other),
    }
    assert!(matches!(avatar_answer(true, &None, &Some("\"\"".to_string())), Ok(FileAnswer::NotModified)));
    assert!(matches!(avatar_answer(true, &None, &None), Err(AppError::NotFound(_))));
    match avatar_answer(true, &file, &None) {
        Ok(FileAnswer::Serve { content_type, etag, cache_control }) => {
            assert_eq!(content_type, "image/jpeg");
            assert_eq!(etag, content_etag(b"face"));
            assert_eq!(cache_control, "public, max-age=3600");
        }
        other => panic!("{:?}", other),
    }
    assert!(matches!(event_avatar_answer(false, &None, &Some("\"\"".to_string())), Ok(FileAnswer::NotModified)));
    assert!(matches!(event_avatar_answer(false, &None, &None), Err(AppError::NotFound(_))));
    assert!(matches!(event_avatar_answer(true, &file, &None), Ok(FileAnswer::Serve { .. })));
}

#[test]
fn avatar_fields_are_picked() {
    let s = |t: &str| Some(t.to_string());
    assert_eq!(avatar_field_file_name(&s("avatar"), &s("me.png")), s("me.png"));
    assert_eq!(avatar_field_file_name(&s("photo"), &s("me.png")), None);
    assert_eq!(avatar_field_file_name(&s("avatar"), &None), None);
    assert_eq!(avatar_field_file_name(&None, &s("me.png")), None);
}
