use zps::passgen::{generate_password_internal, get_password_content, handle_pass_generate};

const LETTERS_DIGITS: &str = "abcdefghijklmnopqrstuvwxyzABCDEFGHIJKLMNOPQRSTUVWXYZ0123456789";
const SYMBOLS: &str = "!@#$%^&*()_+-=[]{}|;:',.<>/?";

fn all_in_pool(pw: &str, no_symbols: bool) -> bool {
    pw.chars().all(|c| {
        LETTERS_DIGITS.contains(c) || (!no_symbols && SYMBOLS.contains(c))
    })
}

#[test]
fn zero_length_is_rejected() {
    assert!(handle_pass_generate(0, false).is_none());
    assert!(handle_pass_generate(0, true).is_none());
}

#[test]
fn generated_password_has_requested_length() {
    let pw = handle_pass_generate(20, false).unwrap();
    assert_eq!(pw.chars().count(), 20);
    assert!(all_in_pool(&pw, false));
}

#[test]
fn no_symbols_stays_alphanumeric() {
    let pw = handle_pass_generate(64, true).unwrap();
    assert_eq!(pw.chars().count(), 64);
    assert!(all_in_pool(&pw, true));
}

#[test]
fn internal_generator_length() {
    let pw = generate_password_internal(25, true);
    assert_eq!(pw.chars().count(), 25);
}

#[test]
fn content_uses_typed_password() {
    let c = get_password_content("secret", false, None, false).unwrap();
    assert_eq!(c, "secret");
}

#[test]
fn content_generates_when_nothing_typed() {
    let c = get_password_content("", false, None, false).unwrap();
    assert_eq!(c.chars().count(), 25);
    assert!(all_in_pool(&c, false));
}

#[test]
fn content_generates_on_request() {
    let c = get_password_content("ignored", true, Some(10), true).unwrap();
    assert_eq!(c.chars().count(), 10);
    assert!(all_in_pool(&c, true));
}

#[test]
fn content_rejects_explicit_zero_length() {
    assert!(get_password_content("x", true, Some(0), false).is_none());
}
