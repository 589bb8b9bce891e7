//! Error taxonomy of the key-management and encryption core.
//!
//! Every failure a core operation can report is one of these kinds;
//! all of them are terminal for the current command.

use vstd::prelude::*;

verus! {

/// One error kind per failure mode of the core.
#[derive(Clone, Copy, Debug, PartialEq, Eq, Structural)]
pub enum Error {
    /// A key file path does not exist.
    NotFound,
    /// The file content could not be parsed as a certificate.
    ParseError,
    /// The parsed certificate carries no user ID.
    NoIdentity,
    /// No key component of the certificate is usable for storage or
    /// transport encryption.
    NotEncryptionCapable,
    /// An explicitly supplied key path does not exist; no fallback is tried.
    SpecifiedKeyNotFound,
    /// The two passphrases typed during key generation differ.
    PassphraseMismatch,
    /// The underlying cryptographic construction failed while
    /// generating a new certificate.
    GenerationError,
    /// The recipient certificate has no live, unrevoked,
    /// storage-encryption-capable key component.
    NoValidRecipientKey,
    /// A stage of the encryption pipeline failed.
    EncryptionError,
    /// A passphrase-protected secret key could not be unlocked with the
    /// passphrase given.
    WrongPassphrase,
    /// No encrypted-session-key packet could be matched and unlocked, or
    /// the message body failed to decrypt.
    DecryptionFailed,
    /// Decrypted bytes are not valid UTF-8 text.
    EncodingError,
    /// An interactively collected name or email address was empty.
    EmptyIdentityInput,
}

impl Error {
    /// A short, stable description of the error kind, for diagnostics.
    pub fn describe(&self) -> (r: &'static str)
        ensures r@.len() > 0,
    {
        let r = match self {
            Error::NotFound => "key file not found",
            Error::ParseError => "failed to parse certificate",
            Error::NoIdentity => "certificate has no user IDs",
            Error::NotEncryptionCapable => "certificate has no encryption-capable key",
            Error::SpecifiedKeyNotFound => "specified key file not found",
            Error::PassphraseMismatch => "passphrases do not match",
            Error::GenerationError => "key generation failed",
            Error::NoValidRecipientKey => "no valid recipient key",
            Error::EncryptionError => "encryption failed",
            Error::WrongPassphrase => "wrong passphrase",
            Error::DecryptionFailed => "decryption failed",
            Error::EncodingError => "decrypted content is not valid UTF-8",
            Error::EmptyIdentityInput => "name and email must be non-empty",
        };
        proof {
            reveal_strlit("key file not found");
            reveal_strlit("failed to parse certificate");
            reveal_strlit("certificate has no user IDs");
            reveal_strlit("certificate has no encryption-capable key");
            reveal_strlit("specified key file not found");
            reveal_strlit("passphrases do not match");
            reveal_strlit("key generation failed");
            reveal_strlit("no valid recipient key");
            reveal_strlit("encryption failed");
            reveal_strlit("wrong passphrase");
            reveal_strlit("decryption failed");
            reveal_strlit("decrypted content is not valid UTF-8");
            reveal_strlit("name and email must be non-empty");
        }
        r
    }
}

} // verus!
