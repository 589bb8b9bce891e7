use zps::edit::{edit_action, edit_commit_message, removal_commit_message, EditAction};
use zps::errors::Error;

#[test]
fn blank_edit_removes_existing_entry() {
    assert_eq!(edit_action(true, true), EditAction::RemoveEntry);
}

#[test]
fn blank_new_entry_creates_nothing() {
    assert_eq!(edit_action(true, false), EditAction::KeepNothing);
}

#[test]
fn non_blank_edit_writes() {
    assert_eq!(edit_action(false, true), EditAction::WriteEntry);
    assert_eq!(edit_action(false, false), EditAction::WriteEntry);
}

#[test]
fn commit_messages_name_the_entry() {
    assert_eq!(edit_commit_message(true, "work/email"), "Edit entry work/email");
    assert_eq!(edit_commit_message(false, "work/email"), "Add entry work/email");
    assert_eq!(removal_commit_message("work/email", false), "Remove entry work/email");
    assert_eq!(
        removal_commit_message("work/email", true),
        "Remove entry work/email (edited to empty)"
    );
}

#[test]
fn every_error_kind_has_a_description() {
    let kinds = vec![
        Error::NotFound,
        Error::ParseError,
        Error::NoIdentity,
        Error::NotEncryptionCapable,
        Error::SpecifiedKeyNotFound,
        Error::PassphraseMismatch,
        Error::GenerationError,
        Error::NoValidRecipientKey,
        Error::EncryptionError,
        Error::WrongPassphrase,
        Error::DecryptionFailed,
        Error::EncodingError,
        Error::EmptyIdentityInput,
    ];
    for k in kinds {
        assert!(!k.describe().is_empty());
    }
    assert_eq!(Error::WrongPassphrase.describe(), "wrong passphrase");
}
