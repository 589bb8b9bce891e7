//! Creation of a fresh certificate: one primary identity key plus
//! dedicated transport- and storage-encryption subkeys, protected by a
//! passphrase, never expiring, marked exportable.
//!
//! The generator performs no I/O: it hands back the armored secret-key
//! serialization, and the caller persists it and re-loads it through
//! `load_certificate`, so that generation and loading share one
//! definition of a usable certificate.

use vstd::prelude::*;

use crate::cert::cert_decoded;
use crate::engine::ascii_bytes;
use crate::errors::Error;
use crate::text::ascii_chars;
use sequoia_openpgp::cert::CertBuilder;
use sequoia_openpgp::serialize::SerializeInto;

verus! {

/// Relies on `CertBuilder::generate` and the armored serializer of
/// `Cert::as_tsk`: builds a certificate with the given user ID,
/// transport- and storage-encryption subkeys, no expiration, marked
/// exportable, its secret material protected by the passphrase, and
/// hands back its armored secret-key text.  The revocation certificate
/// produced alongside is discarded here.  Key material is drawn fresh
/// at random, so the result is not a function of the arguments; what
/// holds of every successful outcome is that the bytes re-parse to a
/// certificate whose user-ID sequence is exactly the given user ID, and
/// that they are ASCII armor whenever the user ID is ASCII (the armor
/// head repeats the user ID as a comment, so a non-ASCII user ID
/// appears verbatim there).
#[verifier::external_body]
fn generate_armored_key(user_id: &str, passphrase: &str) -> (r: Result<Vec<u8>, Error>)
    ensures
        r matches Ok(bytes) ==> (cert_decoded(bytes@) matches Some(id) && id.user_ids == seq![
            user_id@,
        ]),
        ascii_chars(user_id@) ==> (r matches Ok(bytes) ==> ascii_bytes(bytes@)),
        r matches Err(e) ==> e == Error::GenerationError,
{
    let built = CertBuilder::new()
        .add_userid(user_id)
        .set_password(Some(passphrase.into()))
        .add_transport_encryption_subkey()
        .add_storage_encryption_subkey()
        .set_validity_period(None)
        .set_exportable(true)
        .generate();
    let (cert, _revocation) = built.map_err(|_| Error::GenerationError)?;
    let armored = cert.as_tsk().armored().to_vec();
    armored.map_err(|_| Error::GenerationError)
}

/// Generates a new passphrase-protected certificate for the given user
/// ID and hands back its armored secret-key serialization, ready to be
/// persisted and then re-validated through `load_certificate`.  The
/// bytes of a successful result parse back to a certificate carrying
/// exactly the given user ID, and are ASCII whenever the user ID is.
/// Any underlying cryptographic failure is `GenerationError` and must
/// be treated as fatal by the caller, never silently retried.
pub fn generate_key_with_password(user_id: &str, passphrase: &str) -> (r: Result<Vec<u8>, Error>)
    ensures
        r matches Ok(bytes) ==> (cert_decoded(bytes@) matches Some(id) && id.user_ids == seq![
            user_id@,
        ]),
        ascii_chars(user_id@) ==> (r matches Ok(bytes) ==> ascii_bytes(bytes@)),
        r matches Err(e) ==> e == Error::GenerationError,
{
    generate_armored_key(user_id, passphrase)
}

} // verus!
