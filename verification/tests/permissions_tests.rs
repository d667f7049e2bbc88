use rust_context::permissions::EventPermissions;

#[test]
fn test_event_permissions_basic_operations() {
    let mut permissions: EventPermissions = EventPermissions::full();
    assert!(permissions.check_permission(EventPermissions::OWNER));
    assert!(!permissions.check_permission(EventPermissions::ADMIN));

    permissions.add_permission(EventPermissions::ADMIN);
    assert!(permissions.check_permission(EventPermissions::ADMIN));
}

#[test]
fn added_then_removed_permissions() {
    let mut p = EventPermissions::new();
    assert_eq!(p.get_bits(), 0);
    p.add_permission(EventPermissions::ADMIN).add_permission(EventPermissions::MEMBER);
    assert_eq!(p.get_bits(), 3);
    assert!(p.check_permission(EventPermissions::ADMIN));
    assert!(p.check_permission(EventPermissions::MEMBER));
    assert!(!p.check_permission(EventPermissions::OWNER));
    p.add_permission(EventPermissions::ADMIN);
    assert_eq!(p.get_bits(), 3);
    p.remove_permission(EventPermissions::ADMIN);
    assert!(!p.check_permission(EventPermissions::ADMIN));
    assert!(p.check_permission(EventPermissions::MEMBER));
    assert_eq!(p.get_bits(), 1);
}

#[test]
fn any_of_several_permissions() {
    let p = EventPermissions::new_value(EventPermissions::UPLOAD_PHOTO | EventPermissions::MEMBER);
    assert!(p.has_any_permission(&[EventPermissions::OWNER, EventPermissions::UPLOAD_PHOTO]));
    assert!(!p.has_any_permission(&[EventPermissions::OWNER, EventPermissions::DELETE_PHOTO]));
    assert!(!p.has_any_permission(&[]));
}

#[test]
fn permissions_in_binary() {
    assert_eq!(EventPermissions::full().to_binary_string_short(), "100");
    assert_eq!(EventPermissions::new_value(1).to_binary_string_short(), "001");
    assert_eq!(EventPermissions::new_value(6).to_binary_string(), "110");
    assert_eq!(EventPermissions::new_value(0).to_binary_string(), "0");
    assert_eq!(EventPermissions::new_value(40).to_binary_string_short(), "101000");
    assert_eq!(EventPermissions::empty().to_binary_string_short(), "000");
    assert_eq!(
        EventPermissions::new_value(-1).to_binary_string(),
        "11111111111111111111111111111111"
    );
}
