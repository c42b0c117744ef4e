use croissant_core::errors::OpError;
use croissant_core::store::Store;

#[test]
fn register_then_login_scenario() {
    let mut s = Store::new();
    assert_eq!(s.register_user("a@x.com", "pw1"), Ok(true));
    assert_eq!(s.check_login("a@x.com", "pw1"), Ok(true));
    assert_eq!(s.check_login("a@x.com", "wrong"), Ok(false));
    assert_eq!(s.check_login("b@x.com", "pw1"), Ok(false));
}

#[test]
fn register_duplicate_email_is_insert_error() {
    let mut s = Store::new();
    assert_eq!(s.register_user("a@x.com", "pw1"), Ok(true));
    assert_eq!(s.register_user("a@x.com", "pw2"), Err(OpError::DuplicateEmail));
    // The first credentials still work.
    assert_eq!(s.check_login("a@x.com", "pw1"), Ok(true));
}

#[test]
fn login_on_empty_store_is_false() {
    let s = Store::new();
    assert_eq!(s.check_login("nobody@x.com", "pw"), Ok(false));
}

#[test]
fn create_user_echoes_inputs_and_assigns_fresh_ids() {
    let mut s = Store::new();
    let u1 = s.create_user("Alice", "alice@x.com").unwrap();
    assert_eq!(u1.id, 1);
    assert_eq!(u1.name, "Alice");
    assert_eq!(u1.email, "alice@x.com");
    let u2 = s.create_user("Bob", "bob@x.com").unwrap();
    assert_eq!(u2.id, 2);
    assert_ne!(u1.id, u2.id);
}

#[test]
fn list_users_returns_all_records_in_order() {
    let mut s = Store::new();
    s.create_user("Alice", "alice@x.com").unwrap();
    s.create_user("Bob", "bob@x.com").unwrap();
    let users = s.list_users().unwrap();
    assert_eq!(users.len(), 2);
    assert_eq!(users[0].name, "Alice");
    assert_eq!(users[1].name, "Bob");
}

#[test]
fn update_user_changes_fields_and_keeps_id() {
    let mut s = Store::new();
    let u = s.create_user("Alice", "alice@x.com").unwrap();
    let updated = s.update_user(u.id, "Alicia", "alicia@x.com").unwrap();
    assert_eq!(updated.id, u.id);
    assert_eq!(updated.name, "Alicia");
    assert_eq!(updated.email, "alicia@x.com");
    let users = s.list_users().unwrap();
    assert_eq!(users.len(), 1);
    assert_eq!(users[0].name, "Alicia");
}

#[test]
fn update_missing_user_is_not_found() {
    let mut s = Store::new();
    assert!(matches!(s.update_user(7, "X", "x@x.com"), Err(OpError::NotFound)));
}

#[test]
fn delete_user_true_exactly_once() {
    let mut s = Store::new();
    // Never-created id.
    assert_eq!(s.delete_user(42), Ok(false));
    let u = s.create_user("Alice", "alice@x.com").unwrap();
    assert_eq!(s.delete_user(u.id), Ok(true));
    // Already deleted.
    assert_eq!(s.delete_user(u.id), Ok(false));
    assert_eq!(s.list_users().unwrap().len(), 0);
}

#[test]
fn messages_list_newest_first() {
    let mut s = Store::new();
    let a = s.create_message("a@x.com", "sales", "A", "text").unwrap();
    let b = s.create_message("a@x.com", "sales", "B", "text").unwrap();
    let c = s.create_message("a@x.com", "sales", "C", "text").unwrap();
    assert!(a.created_at < b.created_at && b.created_at < c.created_at);
    let listed = s.list_messages().unwrap();
    assert_eq!(listed.len(), 3);
    assert_eq!(listed[0].text, "C");
    assert_eq!(listed[1].text, "B");
    assert_eq!(listed[2].text, "A");
    assert!(listed[0].created_at > listed[1].created_at);
    assert!(listed[1].created_at > listed[2].created_at);
}

#[test]
fn create_message_echoes_inputs() {
    let mut s = Store::new();
    let m = s.create_message("a@x.com", "marketing", "hello", "markdown").unwrap();
    assert_eq!(m.id, 1);
    assert_eq!(m.author_email, "a@x.com");
    assert_eq!(m.department, "marketing");
    assert_eq!(m.text, "hello");
    assert_eq!(m.content_type, "markdown");
}

#[test]
fn delete_message_true_exactly_once() {
    let mut s = Store::new();
    assert_eq!(s.delete_message(9), Ok(false));
    let m = s.create_message("a@x.com", "sales", "A", "text").unwrap();
    assert_eq!(s.delete_message(m.id), Ok(true));
    assert_eq!(s.delete_message(m.id), Ok(false));
    assert_eq!(s.list_messages().unwrap().len(), 0);
}
