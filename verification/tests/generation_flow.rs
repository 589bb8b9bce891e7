use zps::cert::load_certificate;
use zps::engine::{decrypt_data, encrypt_data};
use zps::errors::Error;
use zps::keygen::generate_key_with_password;
use zps::otp::normalize_otpauth_uri;
use zps::resolver::{build_user_id, check_passphrase_confirmation, determine_key, KeySource};

/// The first-run flow end to end, without touching a filesystem: no
/// override and no default key leads to generation; name, email and a
/// confirmed passphrase produce a key whose single user ID is exactly
/// `name <email>`; the persisted bytes re-load through the same
/// validating loader.
#[test]
fn first_run_generates_and_reloads_a_key() {
    let step = determine_key("/home/jane", None, false, false).unwrap();
    let (_dir, _path) = match step {
        KeySource::GenerateNew { dir, path } => (dir, path),
        _ => panic!("expected the generation flow"),
    };

    let uid = build_user_id("Jane Doe", "jane@example.com").unwrap();
    assert_eq!(uid, "Jane Doe <jane@example.com>");
    check_passphrase_confirmation("correct-horse", "correct-horse").unwrap();

    let armored = generate_key_with_password(&uid, "correct-horse").unwrap();
    assert!(String::from_utf8(armored.clone()).unwrap().contains("BEGIN PGP PRIVATE KEY BLOCK"));

    let cert = load_certificate(&armored).unwrap();
    assert_eq!(cert.user_ids().len(), 1);
    assert_eq!(cert.user_ids()[0], "Jane Doe <jane@example.com>");

    let ct = encrypt_data(b"hunter2", &cert).unwrap();
    let pt = decrypt_data(&cert, &ct, "correct-horse").unwrap();
    assert_eq!(pt, b"hunter2");
}

#[test]
fn mismatched_confirmation_stops_generation() {
    let r = check_passphrase_confirmation("abc", "abd");
    assert_eq!(r.unwrap_err(), Error::PassphraseMismatch);
}

#[test]
fn otp_uri_with_scheme_is_accepted() {
    let uri = "otpauth://totp/Example:alice@example.com?secret=JBSWY3DPEHPK3PXP&issuer=Example";
    assert_eq!(normalize_otpauth_uri(uri).unwrap(), uri);
}

#[test]
fn otp_uri_without_scheme_is_rejected() {
    assert!(normalize_otpauth_uri("totp/Example?secret=JBSWY3DPEHPK3PXP").is_none());
    assert!(normalize_otpauth_uri("http://example.com").is_none());
}
