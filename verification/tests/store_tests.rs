use gito::store::Store;
use rusqlite::Connection;

fn fresh_store() -> Store {
    let conn = Connection::open_in_memory().unwrap();
    Store::init_db(conn).ok().unwrap()
}

#[test]
fn reconcile_on_empty_store_inserts_selected_row() {
    let mut store = fresh_store();
    assert!(store.list_identities().ok().unwrap().is_empty());

    let inserted = store
        .reconcile(&"Alice".to_string(), &"alice@example.com".to_string())
        .ok()
        .unwrap();
    assert!(inserted);

    let rows = store.list_identities().ok().unwrap();
    assert_eq!(rows.len(), 1);
    assert_eq!(rows[0].name, "Alice");
    assert_eq!(rows[0].email, "alice@example.com");
    assert!(rows[0].selected);
}

#[test]
fn reconcile_twice_keeps_a_single_row() {
    let mut store = fresh_store();
    let first = store
        .reconcile(&"Alice".to_string(), &"alice@example.com".to_string())
        .ok()
        .unwrap();
    let second = store
        .reconcile(&"Alice".to_string(), &"alice@example.com".to_string())
        .ok()
        .unwrap();
    assert!(first);
    assert!(!second);

    let rows = store.list_identities().ok().unwrap();
    assert_eq!(rows.len(), 1);
    assert_eq!(rows[0].email, "alice@example.com");
}

#[test]
fn reconcile_runs_never_duplicate_an_email() {
    let mut store = fresh_store();
    store.reconcile(&"Alice".to_string(), &"a@x.com".to_string()).ok().unwrap();
    store.reconcile(&"Bob".to_string(), &"b@x.com".to_string()).ok().unwrap();
    store.reconcile(&"Alice again".to_string(), &"a@x.com".to_string()).ok().unwrap();

    let rows = store.list_identities().ok().unwrap();
    assert_eq!(rows.len(), 2);
    assert_ne!(rows[0].email, rows[1].email);
}

#[test]
fn reconcile_accepts_empty_name_and_email() {
    let mut store = fresh_store();
    let inserted = store.reconcile(&String::new(), &String::new()).ok().unwrap();
    assert!(inserted);

    let rows = store.list_identities().ok().unwrap();
    assert_eq!(rows.len(), 1);
    assert_eq!(rows[0].name, "");
    assert_eq!(rows[0].email, "");
    assert!(rows[0].selected);
}

#[test]
fn reconcile_leaves_a_known_row_untouched() {
    let mut store = fresh_store();
    store.add_user(&"Alice".to_string(), &"a@x.com".to_string()).ok().unwrap();

    let inserted = store
        .reconcile(&"Alice elsewhere".to_string(), &"a@x.com".to_string())
        .ok()
        .unwrap();
    assert!(!inserted);

    let rows = store.list_identities().ok().unwrap();
    assert_eq!(rows.len(), 1);
    assert_eq!(rows[0].name, "Alice");
    assert!(!rows[0].selected);
}

#[test]
fn add_user_allows_a_duplicate_email() {
    let mut store = fresh_store();
    store.add_user(&"Alice".to_string(), &"same@x.com".to_string()).ok().unwrap();
    store.add_user(&"Alicia".to_string(), &"same@x.com".to_string()).ok().unwrap();

    let rows = store.list_identities().ok().unwrap();
    assert_eq!(rows.len(), 2);
    assert_eq!(rows[0].email, "same@x.com");
    assert_eq!(rows[1].email, "same@x.com");
    assert_ne!(rows[0].id, rows[1].id);
}

#[test]
fn add_user_leaves_the_flag_off() {
    let mut store = fresh_store();
    store.add_user(&"Alice".to_string(), &"a@x.com".to_string()).ok().unwrap();
    let rows = store.list_identities().ok().unwrap();
    assert_eq!(rows.len(), 1);
    assert!(!rows[0].selected);
}

#[test]
fn add_user_as_selected_sets_the_flag() {
    let mut store = fresh_store();
    store.add_user_as_selected(&"Alice".to_string(), &"a@x.com".to_string()).ok().unwrap();
    let rows = store.list_identities().ok().unwrap();
    assert_eq!(rows.len(), 1);
    assert!(rows[0].selected);
}

#[test]
fn remove_user_with_missing_id_is_a_noop() {
    let mut store = fresh_store();
    store.add_user(&"Alice".to_string(), &"a@x.com".to_string()).ok().unwrap();
    let before = store.list_identities().ok().unwrap();

    store.remove_user(9999).ok().unwrap();

    let after = store.list_identities().ok().unwrap();
    assert_eq!(before, after);
}

#[test]
fn remove_user_on_empty_store_is_a_noop() {
    let mut store = fresh_store();
    store.remove_user(1).ok().unwrap();
    assert!(store.list_identities().ok().unwrap().is_empty());
}

#[test]
fn remove_user_deletes_the_matching_row() {
    let mut store = fresh_store();
    store.add_user(&"Alice".to_string(), &"a@x.com".to_string()).ok().unwrap();
    store.add_user(&"Bob".to_string(), &"b@x.com".to_string()).ok().unwrap();
    let rows = store.list_identities().ok().unwrap();

    store.remove_user(rows[0].id).ok().unwrap();

    let left = store.list_identities().ok().unwrap();
    assert_eq!(left.len(), 1);
    assert_eq!(left[0].id, rows[1].id);
    assert_eq!(left[0].email, "b@x.com");
}

#[test]
fn select_user_keeps_previously_selected_rows() {
    let mut store = fresh_store();
    store.add_user(&"Alice".to_string(), &"a@x.com".to_string()).ok().unwrap();
    store.add_user(&"Bob".to_string(), &"b@x.com".to_string()).ok().unwrap();
    let rows = store.list_identities().ok().unwrap();
    assert!(!rows[0].selected && !rows[1].selected);

    store.select_user(rows[0].id).ok().unwrap();
    store.select_user(rows[1].id).ok().unwrap();

    let after = store.list_identities().ok().unwrap();
    assert!(after[0].selected);
    assert!(after[1].selected);
}

#[test]
fn select_user_with_missing_id_changes_nothing() {
    let mut store = fresh_store();
    store.add_user(&"Alice".to_string(), &"a@x.com".to_string()).ok().unwrap();
    let before = store.list_identities().ok().unwrap();

    store.select_user(9999).ok().unwrap();

    let after = store.list_identities().ok().unwrap();
    assert_eq!(before, after);
}

#[test]
fn email_in_use_tracks_inserts() {
    let mut store = fresh_store();
    let email = "a@x.com".to_string();
    assert!(!store.email_in_use(&email).ok().unwrap());

    store.add_user(&"Alice".to_string(), &email).ok().unwrap();
    assert!(store.email_in_use(&email).ok().unwrap());
    assert!(!store.email_in_use(&"other@x.com".to_string()).ok().unwrap());
}

#[test]
fn get_all_users_mirrors_the_rows_without_flags() {
    let mut store = fresh_store();
    store.add_user(&"Alice".to_string(), &"a@x.com".to_string()).ok().unwrap();
    store.add_user_as_selected(&"Bob".to_string(), &"b@x.com".to_string()).ok().unwrap();

    let rows = store.list_identities().ok().unwrap();
    let users = store.get_all_users().ok().unwrap();
    assert_eq!(users.len(), 2);
    for (u, r) in users.iter().zip(rows.iter()) {
        assert_eq!(u.id, r.id);
        assert_eq!(u.name, r.name);
        assert_eq!(u.email, r.email);
    }
}
