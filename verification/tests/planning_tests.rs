use rust_context::config::Config;
use rust_context::errors::AppError;
use rust_context::events::{create_event_response, detailed_event_response, EventParticipant, Events};
use rust_context::models::PlanningModule;
use rust_context::permissions::EventPermissions;
use rust_context::planning::{
    planning_modules, ItemListItem, ItemListWithItems, Poll, TaskListItem, TaskListWithItems,
};
use rust_context::polls::{tally_poll, PollOptionRow};
use rust_context::verification::{verification_mail_body, VerificationStore};

fn vars(pairs: &[(&str, &str)]) -> Vec<(String, String)> {
    pairs.iter().map(|(k, v)| (k.to_string(), v.to_string())).collect()
}

fn required() -> Vec<(&'static str, &'static str)> {
    vec![
        ("DATABASE_URL", "postgres://db"),
        ("SMTP_SERVER", "smtp.example.com"),
        ("SMTP_USERNAME", "bot@example.com"),
        ("SMTP_PASSWORD", "hunter2"),
    ]
}

#[test]
fn config_defaults() {
    let c = Config::from_vars(&vars(&required())).unwrap();
    assert_eq!(c.database_url, "postgres://db");
    assert_eq!(c.database_url_test, "");
    assert_eq!(c.host, "0.0.0.0");
    assert_eq!(c.port, 8080);
    assert_eq!(c.rust_log, "info");
    assert_eq!(c.bcrypt_cost, 12);
    assert_eq!(c.max_album_size_mb, 50);
    assert_eq!(c.max_photos_count, 100);
    assert_eq!(c.smtp_port, 587);
    assert_eq!(c.photo_cache_max_age, 30);
    assert_eq!(c.smtp_password, "hunter2");
}

#[test]
fn config_reads_given_values() {
    let mut v = required();
    v.push(("PORT", "9000"));
    v.push(("PHOTO_CACHE_MAX_AGE", "600"));
    v.push(("HOST", "127.0.0.1"));
    let c = Config::from_vars(&vars(&v)).unwrap();
    assert_eq!(c.port, 9000);
    assert_eq!(c.photo_cache_max_age, 600);
    assert_eq!(c.host, "127.0.0.1");
}

#[test]
fn config_problems() {
    assert_eq!(Config::from_vars(&vars(&[])).unwrap_err(), "DATABASE_URL not set");
    let mut v = required();
    v.push(("PORT", "eighty"));
    assert_eq!(Config::from_vars(&vars(&v)).unwrap_err(), "PORT must be a number");
    let mut v = required();
    v.push(("SMTP_PORT", "70000"));
    assert_eq!(Config::from_vars(&vars(&v)).unwrap_err(), "SMTP_PORT must be a number");
    let v = vec![("DATABASE_URL", "x"), ("SMTP_SERVER", "s"), ("SMTP_USERNAME", "u")];
    assert_eq!(Config::from_vars(&vars(&v)).unwrap_err(), "SMTP_PASSWORD not set");
}

fn event() -> Events {
    Events {
        event_id: 12,
        title: "Trip".to_string(),
        description_event: Some("Weekend".to_string()),
        start_date_time: Some(0),
        end_date_time: None,
        color: "#123456".to_string(),
        created_at: 1_000_000,
        status_event: "active".to_string(),
        location: None,
    }
}

#[test]
fn created_event_is_answered() {
    let r = create_event_response(&event(), true).unwrap();
    assert_eq!(r.event_id, "12");
    assert_eq!(r.title, "Trip");
    assert_eq!(r.description_event.as_deref(), Some("Weekend"));
    assert_eq!(r.start_date_time.as_deref(), Some("1970-01-01T00:00:00+00:00"));
    assert_eq!(r.end_date_time, None);
    assert_eq!(r.created_by, "true");
    assert_eq!(r.created_at, "1970-01-01T00:00:01+00:00");
    assert_eq!(r.status_event, "active");
    let mut e = event();
    e.created_at = i64::MAX;
    match create_event_response(&e, false) {
        Err(AppError::Internal(m)) => assert_eq!(m, "Invalid event time"),
        other => panic!("{:?}", other),
    }
}

#[test]
fn detailed_event_links_only_for_owner() {
    let members = vec![EventParticipant { user_id: 1, username: "a".to_string() }];
    let r = detailed_event_response(event(), true, "tok", members, EventPermissions::new_value(6));
    assert_eq!(r.invite_link.as_deref(), Some("https://kruug.netlify.app/invite?token=tok"));
    assert_eq!(r.permissions, "110");
    assert_eq!(r.members.len(), 1);
    let r = detailed_event_response(event(), false, "tok", Vec::new(), EventPermissions::new_value(1));
    assert_eq!(r.invite_link, None);
    assert_eq!(r.permissions, "1");
}

#[test]
fn planning_modules_in_order() {
    let poll = Poll {
        poll_id: 5,
        question: "Where?".to_string(),
        created_by: 1,
        created_at: None,
        is_active: true,
        more_than_one_vote: true,
    };
    let tally = tally_poll(
        &vec![PollOptionRow { option_id: 1, option_text: "Sea".to_string(), position: 0 }],
        &vec![(1, 1)],
        1,
    );
    let items = vec![ItemListWithItems {
        item_list_id: 7,
        event_id: 1,
        title: "Things".to_string(),
        created_by: 1,
        created_at: 0,
        items: vec![ItemListItem {
            item_id: 70,
            item_text: "tent".to_string(),
            assigned_user_id: Some(4),
            assigned_user_name: Some("Ann".to_string()),
        }],
    }];
    let tasks = vec![TaskListWithItems {
        task_list_id: 8,
        event_id: 1,
        title: "Tasks".to_string(),
        created_by: 1,
        created_at: 0,
        items: vec![TaskListItem {
            task_id: 80,
            task_text: "book".to_string(),
            assigned_user_id: None,
            assigned_user_name: None,
            is_completed: true,
        }],
    }];
    let r = planning_modules(vec![(poll, tally)], &items, &tasks);
    assert_eq!(r.modules.len(), 3);
    match &r.modules[0] {
        PlanningModule::Poll { id, title, data } => {
            assert_eq!(id, "5");
            assert_eq!(title, "Where?");
            assert!(data.multiple_choice);
            assert_eq!(data.votes_count, vec![1]);
            assert_eq!(data.own_vote, vec![0]);
        }
        other => panic!("{:?}", other),
    }
    match &r.modules[1] {
        PlanningModule::ItemList { id, title, data } => {
            assert_eq!(id, "7");
            assert_eq!(title, "Things");
            assert_eq!(data.items[0].id, "70");
            assert_eq!(data.items[0].text, "tent");
            assert_eq!(data.items[0].assigned_user_id.as_deref(), Some("4"));
            assert_eq!(data.items[0].assigned_user_name.as_deref(), Some("Ann"));
        }
        other => panic!("{:?}", other),
    }
    match &r.modules[2] {
        PlanningModule::TaskList { id, data, .. } => {
            assert_eq!(id, "8");
            assert_eq!(data.items[0].id, "80");
            assert_eq!(data.items[0].assigned_user_id, None);
            assert!(data.items[0].completed);
        }
        other => panic!("{:?}", other),
    }
}

#[test]
fn codes_are_issued_with_a_cooldown() {
    let mut store = VerificationStore::new();
    assert_eq!(store.issue_code_at("a@b.c", "123456".to_string(), 0).unwrap(), "123456");
    assert_eq!(
        store.issue_code_at("a@b.c", "654321".to_string(), 29_000_000).unwrap_err(),
        "Too many requests. Wait before retry"
    );
    assert_eq!(store.get("a@b.c").unwrap().code, "123456");
    assert_eq!(store.issue_code_at("a@b.c", "654321".to_string(), 30_000_000).unwrap(), "654321");
    assert_eq!(store.get("a@b.c").unwrap().expires_at, 30_000_000 + 15 * 60_000_000);
    let code = store.issue_code("x@y.z").unwrap();
    assert_eq!(code.len(), 6);
    assert_eq!(verification_mail_body("123456"), "Verification code 123456");
}

use rust_context::planning::{item_assignment_result, task_assignment_result};

#[test]
fn assignment_results() {
    assert!(item_assignment_result(true, true).is_ok());
    match item_assignment_result(true, false) {
        Err(AppError::BadRequest(m)) => assert_eq!(m, "Item is already assigned"),
        other => panic!("{:?}", other),
    }
    match item_assignment_result(false, false) {
        Err(AppError::BadRequest(m)) => assert_eq!(m, "Item is not assigned to you"),
        other => panic!("{:?}", other),
    }
    assert!(task_assignment_result(false, true).is_ok());
    match task_assignment_result(true, false) {
        Err(AppError::BadRequest(m)) => assert_eq!(m, "Task is already assigned"),
        other => panic!("{:?}", other),
    }
    match task_assignment_result(false, false) {
        Err(AppError::BadRequest(m)) => assert_eq!(m, "Task is not assigned to you"),
        other => panic!("{:?}", other),
    }
}

use rust_context::planning::{item_removal_result, task_removal_result};

#[test]
fn list_removals_refused_where_a_row_stayed() {
    assert!(item_removal_result(2, 2).is_ok());
    assert!(task_removal_result(0, 0).is_ok());
    match item_removal_result(1, 2) {
        Err(AppError::BadRequest(m)) => assert_eq!(m, "Some items are assigned and cannot be deleted"),
        other => panic!("{:?}", other),
    }
    match task_removal_result(0, 3) {
        Err(AppError::BadRequest(m)) => assert_eq!(m, "Some tasks are assigned and cannot be deleted"),
        other => panic!("{:?}", other),
    }
}
