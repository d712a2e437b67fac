use gito::display::{format_user_line, format_user_list, max_name_len};
use gito::store::User;

fn user(id: i32, name: &str, email: &str) -> User {
    User { id, name: name.to_string(), email: email.to_string() }
}

#[test]
fn max_name_len_is_the_longest_name() {
    let users = vec![user(1, "Al", "a@x.com"), user(2, "Bobby", "b@x.com")];
    assert_eq!(max_name_len(&users), 5);
}

#[test]
fn max_name_len_of_empty_list_is_zero() {
    let users: Vec<User> = Vec::new();
    assert_eq!(max_name_len(&users), 0);
}

#[test]
fn format_user_line_pads_short_names() {
    let line = format_user_line(&"Alice".to_string(), &"a@x.com".to_string(), 8);
    assert_eq!(line, "Alice    - a@x.com");
}

#[test]
fn format_user_line_leaves_wide_names_alone() {
    let line = format_user_line(&"Alice".to_string(), &"a@x.com".to_string(), 3);
    assert_eq!(line, "Alice - a@x.com");
}

#[test]
fn format_user_list_of_empty_list_is_empty() {
    let users: Vec<User> = Vec::new();
    assert!(format_user_list(&users).is_empty());
}

#[test]
fn format_user_list_aligns_on_the_longest_name() {
    let users = vec![user(1, "Al", "a@x.com"), user(2, "Bobby", "b@x.com")];
    let lines = format_user_list(&users);
    assert_eq!(lines.len(), 2);
    assert_eq!(lines[0], format!("{:<width$} - {}", "Al", "a@x.com", width = 5));
    assert_eq!(lines[1], format!("{:<width$} - {}", "Bobby", "b@x.com", width = 5));
    assert_eq!(lines[0], "Al    - a@x.com");
    assert_eq!(lines[1], "Bobby - b@x.com");
}
