use zps::store::{get_password_file_path, get_password_store_path, join_path};

#[test]
fn store_path_below_home() {
    assert_eq!(get_password_store_path("/home/u"), "/home/u/.zps");
}

#[test]
fn store_path_keeps_single_separator() {
    assert_eq!(get_password_store_path("/home/u/"), "/home/u/.zps");
}

#[test]
fn join_path_plain() {
    assert_eq!(join_path("/a/b", "c"), "/a/b/c");
    assert_eq!(join_path("", "c"), "/c");
}

#[test]
fn entry_path_simple() {
    let p = get_password_file_path("/home/u/.zps", "work/email").unwrap();
    assert_eq!(p, "/home/u/.zps/work/email.gpg");
}

#[test]
fn entry_path_single_component() {
    let p = get_password_file_path("/s", "mail").unwrap();
    assert_eq!(p, "/s/mail.gpg");
}

#[test]
fn entry_path_replaces_existing_extension() {
    let p = get_password_file_path("/s", "social/twitter.com").unwrap();
    assert_eq!(p, "/s/social/twitter.gpg");
}

#[test]
fn entry_path_keeps_leading_dot_component() {
    let p = get_password_file_path("/s", ".hidden").unwrap();
    assert_eq!(p, "/s/.hidden.gpg");
}

#[test]
fn entry_path_multiple_dots() {
    let p = get_password_file_path("/s", "a.b.c").unwrap();
    assert_eq!(p, "/s/a.b.gpg");
}

#[test]
fn entry_path_skips_empty_and_dot_components() {
    assert_eq!(get_password_file_path("/s", "foo//bar").unwrap(), "/s/foo/bar.gpg");
    assert_eq!(get_password_file_path("/s", "foo/./bar").unwrap(), "/s/foo/bar.gpg");
}

#[test]
fn entry_path_backslash_separators() {
    assert_eq!(get_password_file_path("/s", "foo\\bar").unwrap(), "/s/foo/bar.gpg");
}

#[test]
fn entry_path_rejects_empty_name() {
    assert!(get_password_file_path("/s", "").is_none());
}

#[test]
fn entry_path_rejects_dotdot() {
    assert!(get_password_file_path("/s", "a/../b").is_none());
    assert!(get_password_file_path("/s", "a..b").is_none());
    assert!(get_password_file_path("/s", "..").is_none());
}

#[test]
fn entry_path_rejects_absolute_names() {
    assert!(get_password_file_path("/s", "/etc/passwd").is_none());
    assert!(get_password_file_path("/s", "\\windows").is_none());
}
