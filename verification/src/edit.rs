//! Decisions of the entry-editing flow.
//!
//! After the operator edits an entry's decrypted text, what happens
//! next depends only on whether the result is blank and whether the
//! entry existed before: blank text removes an existing entry, creates
//! nothing for a new one, and anything else is encrypted and written.
//! The caller performs the editing, removal and writing, and commits
//! with the messages built here.

use vstd::prelude::*;

verus! {

/// What to do with the store after an edit.
#[derive(Clone, Copy, Debug, PartialEq, Eq, Structural)]
pub enum EditAction {
    /// The entry existed and was edited to blank: remove it.
    RemoveEntry,
    /// A new entry was left blank: create nothing.
    KeepNothing,
    /// Encrypt the edited text and write it.
    WriteEntry,
}

/// The action an edit results in.
pub fn edit_action(content_is_blank: bool, entry_existed: bool) -> (r: EditAction)
    ensures
        content_is_blank && entry_existed ==> r == EditAction::RemoveEntry,
        content_is_blank && !entry_existed ==> r == EditAction::KeepNothing,
        !content_is_blank ==> r == EditAction::WriteEntry,
{
    if !content_is_blank {
        EditAction::WriteEntry
    } else if entry_existed {
        EditAction::RemoveEntry
    } else {
        EditAction::KeepNothing
    }
}

/// The commit message for a written entry: `Edit entry <path>` when it
/// existed before, `Add entry <path>` otherwise.
pub fn edit_commit_message(entry_existed: bool, path: &str) -> (r: String)
    ensures
        entry_existed ==> r@ == "Edit entry "@ + path@,
        !entry_existed ==> r@ == "Add entry "@ + path@,
{
    let mut r = if entry_existed {
        "Edit entry ".to_owned()
    } else {
        "Add entry ".to_owned()
    };
    r.append(path);
    r
}

/// The commit message for a removed entry, noting when the removal came
/// from an edit that left it blank.
pub fn removal_commit_message(path: &str, edited_to_blank: bool) -> (r: String)
    ensures
        !edited_to_blank ==> r@ == "Remove entry "@ + path@,
        edited_to_blank ==> r@ == "Remove entry "@ + path@ + " (edited to empty)"@,
{
    let mut r = "Remove entry ".to_owned();
    r.append(path);
    if edited_to_blank {
        r.append(" (edited to empty)");
    }
    r
}

} // verus!
