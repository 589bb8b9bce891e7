//! Which key protects the store: the resolution state machine.
//!
//! Evaluated once per command: an explicitly supplied key path must
//! exist and wins outright — no fallback; otherwise the default key
//! below the configuration directory is used when present; otherwise a
//! first run generates a new key, which the caller persists at the
//! default path and re-loads through the certificate loader, so that
//! generation never bypasses validation.
//!
//! The resolver decides; the caller performs the existence checks,
//! prompts, reads and writes, and hands the outcomes in as plain values.

use vstd::prelude::*;

use crate::errors::Error;
use crate::store::{join_path, spec_join, CONFIG_DIR_NAME, DEFAULT_KEY_FILE_NAME};

verus! {

/// Where the active key comes from, with the paths to use.
#[derive(Debug)]
pub enum KeySource {
    /// A caller-supplied key file, which exists.
    Explicit { path: String },
    /// The default key file, which exists.
    DefaultExisting { path: String },
    /// No key yet: generate one, persist it at `path` after creating
    /// `dir`, then re-load and re-validate it.
    GenerateNew { dir: String, path: String },
}

/// The configuration directory below the home directory.
pub open spec fn spec_config_dir(home: Seq<char>) -> Seq<char> {
    spec_join(home, CONFIG_DIR_NAME@)
}

/// The default key file below the configuration directory.
pub open spec fn spec_default_key_path(home: Seq<char>) -> Seq<char> {
    spec_join(spec_config_dir(home), DEFAULT_KEY_FILE_NAME@)
}

/// Character-by-character string equality.
pub fn str_equal(a: &str, b: &str) -> (r: bool)
    ensures
        r == (a@ == b@),
{
    let na: usize = a.unicode_len();
    let nb: usize = b.unicode_len();
    if na != nb {
        return false;
    }
    let mut i: usize = 0;
    while i < na
        invariant
            na == a@.len(),
            na == b@.len(),
            i <= na,
            forall|j: int| 0 <= j < i ==> a@[j] == b@[j],
        decreases na - i,
    {
        if a.get_char(i) != b.get_char(i) {
            proof {
                if a@ == b@ {
                    assert(a@[i as int] == b@[i as int]);
                }
            }
            return false;
        }
        i = i + 1;
    }
    proof {
        assert(a@ =~= b@);
    }
    true
}

/// Checks that the passphrase and its confirmation agree exactly;
/// key generation must not proceed otherwise.
pub fn check_passphrase_confirmation(passphrase: &str, confirmation: &str) -> (r: Result<
    (),
    Error,
>)
    ensures
        r is Ok <==> passphrase@ == confirmation@,
        r matches Err(e) ==> e == Error::PassphraseMismatch,
{
    if str_equal(passphrase, confirmation) {
        Ok(())
    } else {
        Err(Error::PassphraseMismatch)
    }
}

/// The user ID of a generated key: `name <email>`.
pub open spec fn spec_user_id(name: Seq<char>, email: Seq<char>) -> Seq<char> {
    name + seq![' ', '<'] + email + seq!['>']
}

/// Builds the `name <email>` user ID for a new key; both parts must be
/// non-empty.
pub fn build_user_id(name: &str, email: &str) -> (r: Result<String, Error>)
    ensures
        r is Ok <==> name@.len() > 0 && email@.len() > 0,
        r matches Ok(uid) ==> uid@ == spec_user_id(name@, email@),
        r matches Err(e) ==> e == Error::EmptyIdentityInput,
{
    if name.unicode_len() == 0 || email.unicode_len() == 0 {
        return Err(Error::EmptyIdentityInput);
    }
    let mut uid = name.to_owned();
    uid.append(" <");
    uid.append(email);
    uid.append(">");
    proof {
        reveal_strlit(" <");
        reveal_strlit(">");
        assert(uid@ =~= spec_user_id(name@, email@));
    }
    Ok(uid)
}

/// Decides which key to use.  An explicit override that does not exist
/// fails with `SpecifiedKeyNotFound` and nothing else is tried; an
/// existing override or default key is loaded from its path; with
/// neither, the first-run generation flow is entered at the default
/// location.
pub fn determine_key(
    home: &str,
    override_path: Option<&String>,
    override_exists: bool,
    default_exists: bool,
) -> (r: Result<KeySource, Error>)
    ensures
        override_path matches Some(p) ==> (if override_exists {
            r matches Ok(s) && s matches KeySource::Explicit { path } && path@ == p@
        } else {
            r == Err::<KeySource, Error>(Error::SpecifiedKeyNotFound)
        }),
        override_path is None && default_exists ==> (r matches Ok(s) && s
            matches KeySource::DefaultExisting { path } && path@ == spec_default_key_path(home@)),
        override_path is None && !default_exists ==> (r matches Ok(s) && s
            matches KeySource::GenerateNew { dir, path } && dir@ == spec_config_dir(home@)
            && path@ == spec_default_key_path(home@)),
{
    match override_path {
        Some(p) => {
            if override_exists {
                Ok(KeySource::Explicit { path: p.clone() })
            } else {
                Err(Error::SpecifiedKeyNotFound)
            }
        },
        None => {
            let dir = join_path(home, CONFIG_DIR_NAME);
            let path = join_path(dir.as_str(), DEFAULT_KEY_FILE_NAME);
            if default_exists {
                Ok(KeySource::DefaultExisting { path })
            } else {
                Ok(KeySource::GenerateNew { dir, path })
            }
        },
    }
}

} // verus!
