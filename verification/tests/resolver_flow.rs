use zps::errors::Error;
use zps::resolver::{build_user_id, check_passphrase_confirmation, determine_key, KeySource};

#[test]
fn explicit_override_wins_when_present() {
    let kp = String::from("/tmp/mykey.pgp");
    match determine_key("/home/u", Some(&kp), true, true).unwrap() {
        KeySource::Explicit { path } => assert_eq!(path, "/tmp/mykey.pgp"),
        _ => panic!("expected the explicit key source"),
    }
}

#[test]
fn missing_override_is_an_error_without_fallback() {
    let kp = String::from("/tmp/absent.pgp");
    let r = determine_key("/home/u", Some(&kp), false, true);
    assert_eq!(r.unwrap_err(), Error::SpecifiedKeyNotFound);
}

#[test]
fn default_key_is_used_when_present() {
    match determine_key("/home/u", None, false, true).unwrap() {
        KeySource::DefaultExisting { path } => assert_eq!(path, "/home/u/.config/key.pgp"),
        _ => panic!("expected the default key source"),
    }
}

#[test]
fn no_key_triggers_generation_flow() {
    match determine_key("/home/u", None, false, false).unwrap() {
        KeySource::GenerateNew { dir, path } => {
            assert_eq!(dir, "/home/u/.config");
            assert_eq!(path, "/home/u/.config/key.pgp");
        },
        _ => panic!("expected the generation flow"),
    }
}

#[test]
fn user_id_is_name_and_email() {
    let uid = build_user_id("Jane Doe", "jane@example.com").unwrap();
    assert_eq!(uid, "Jane Doe <jane@example.com>");
}

#[test]
fn empty_name_or_email_is_rejected() {
    assert_eq!(build_user_id("", "jane@example.com").unwrap_err(), Error::EmptyIdentityInput);
    assert_eq!(build_user_id("Jane Doe", "").unwrap_err(), Error::EmptyIdentityInput);
}

#[test]
fn matching_passphrases_are_accepted() {
    assert!(check_passphrase_confirmation("correct-horse", "correct-horse").is_ok());
}

#[test]
fn mismatched_passphrases_are_rejected() {
    let r = check_passphrase_confirmation("abc", "abd");
    assert_eq!(r.unwrap_err(), Error::PassphraseMismatch);
}
