//! In-memory representation of an OpenPGP certificate together with
//! loading and validation.
//!
//! A certificate file is parsed by the OpenPGP library; what the core
//! logic reads from it — fingerprint, user IDs and the capability flags
//! of every key component — is extracted once into plain values, and all
//! decisions are made and verified over those values.  A certificate is
//! usable only when it carries at least one user ID and at least one
//! encryption-capable key component.

use vstd::prelude::*;

use crate::errors::Error;
use sequoia_openpgp::cert::amalgamation::ValidAmalgamation;
use sequoia_openpgp::parse::Parse;

verus! {

/// Declaration of the OpenPGP library's certificate type; values of it
/// are carried through the core opaquely.
#[verifier::external_type_specification]
#[verifier::external_body]
pub struct ExCert(sequoia_openpgp::Cert);

/// What the core reads from one key component of a certificate.
///
/// `keyid` is the 64-bit key identifier; the flags record, as evaluated
/// under the standard policy when the certificate was loaded: whether the
/// component may encrypt data at rest (`for_storage`) or in transit
/// (`for_transport`), whether the backend supports its algorithm, whether
/// it is alive (not expired) and not revoked, and whether it carries
/// secret material, passphrase-protected (`locked`) or not.
#[derive(Clone, Copy, Debug, PartialEq, Eq, Structural)]
pub struct KeyComponent {
    pub keyid: u64,
    pub for_storage: bool,
    pub for_transport: bool,
    pub supported: bool,
    pub alive: bool,
    pub revoked: bool,
    pub has_secret: bool,
    pub locked: bool,
}

/// The identity a certificate file determines: the primary key's
/// upper-case hex fingerprint and the user IDs, in order.
pub ghost struct CertIdentity {
    pub fingerprint: Seq<char>,
    pub user_ids: Seq<Seq<char>>,
}

/// The identity encoded in a byte sequence, if it parses as a
/// certificate.  Parsing is deterministic, so this is a function of the
/// bytes alone; it is given by `parse_cert_bytes`.
pub uninterp spec fn cert_decoded(bytes: Seq<u8>) -> Option<CertIdentity>;

/// Relies on `sequoia_openpgp::Cert::from_bytes` together with
/// `Cert::fingerprint` and `Cert::userids`: whether the bytes parse as a
/// certificate, the primary key's upper-case hex fingerprint, and the
/// sequence of user IDs are all functions of the bytes alone.
#[verifier::external_body]
fn parse_cert_bytes(bytes: &[u8]) -> (r: Option<(sequoia_openpgp::Cert, String, Vec<String>)>)
    ensures
        r is Some <==> cert_decoded(bytes@) is Some,
        r matches Some(t) ==> (cert_decoded(bytes@) matches Some(id) && t.1@ == id.fingerprint
            && t.2@.map_values(|u: String| u@) == id.user_ids),
{
    let cert = sequoia_openpgp::Cert::from_bytes(bytes).ok()?;
    let fingerprint = cert.fingerprint().to_hex().to_uppercase();
    let user_ids: Vec<String> = cert.userids().map(|u| u.userid().to_string()).collect();
    Some((cert, fingerprint, user_ids))
}

/// Relies on `Cert::keys` evaluated under the standard policy at the
/// current time: reports, for every key component, its key identifier,
/// encryption capabilities, backend support, liveness, revocation status
/// and secret-material status.  Liveness and revocation depend on the
/// evaluation time, so nothing ties this result to the certificate bytes.
#[verifier::external_body]
fn extract_key_components(cert: &sequoia_openpgp::Cert) -> (r: Vec<KeyComponent>) {
    let p = sequoia_openpgp::policy::StandardPolicy::new();
    let mut out = Vec::new();
    for ka in cert.keys().with_policy(&p, None) {
        let key = ka.key();
        let revoked = matches!(ka.revocation_status(),
            sequoia_openpgp::types::RevocationStatus::Revoked(_));
        out.push(KeyComponent {
            keyid: key.keyid().as_u64().unwrap_or(0), supported: key.pk_algo().is_supported(),
            for_storage: ka.for_storage_encryption(), for_transport: ka.for_transport_encryption(),
            alive: ka.alive().is_ok(), revoked, has_secret: key.has_secret(),
            locked: key.has_secret() && !key.has_unencrypted_secret(),
        });
    }
    out
}

/// A loaded certificate: the library's parsed form, kept for the
/// cryptographic operations, together with the plain values the core's
/// decisions are made over.
#[derive(Debug)]
pub struct Certificate {
    handle: sequoia_openpgp::Cert,
    fingerprint: String,
    user_ids: Vec<String>,
    keys: Vec<KeyComponent>,
}

/// The mathematical content of a loaded certificate.
pub ghost struct CertificateView {
    pub fingerprint: Seq<char>,
    pub user_ids: Seq<Seq<char>>,
    pub keys: Seq<KeyComponent>,
}

impl View for Certificate {
    type V = CertificateView;

    closed spec fn view(&self) -> CertificateView {
        CertificateView {
            fingerprint: self.fingerprint@,
            user_ids: self.user_ids@.map_values(|u: String| u@),
            keys: self.keys@,
        }
    }
}

/// Whether some key component may be used for storage or transport
/// encryption: the usability invariant checked at load time.
pub open spec fn has_encryption_capable(keys: Seq<KeyComponent>) -> bool {
    exists|i: int|
        0 <= i < keys.len() && ((#[trigger] keys[i]).for_storage || keys[i].for_transport)
}

/// Whether some key component may be used for storage or transport
/// encryption.
pub fn encryption_capable(keys: &Vec<KeyComponent>) -> (r: bool)
    ensures
        r == has_encryption_capable(keys@),
{
    let n = keys.len();
    let mut i: usize = 0;
    while i < n
        invariant
            i <= n == keys@.len(),
            forall|j: int|
                0 <= j < i ==> !((#[trigger] keys@[j]).for_storage || keys@[j].for_transport),
        decreases n - i,
    {
        if keys[i].for_storage || keys[i].for_transport {
            return true;
        }
        i = i + 1;
    }
    false
}

/// Assembles and validates a certificate from its parsed parts: rejected
/// with `NoIdentity` when there is no user ID, with
/// `NotEncryptionCapable` when no key component can encrypt; accepted
/// otherwise, with the parts carried over unchanged.
pub fn validate_certificate(
    handle: sequoia_openpgp::Cert,
    fingerprint: String,
    user_ids: Vec<String>,
    keys: Vec<KeyComponent>,
) -> (r: Result<Certificate, Error>)
    ensures
        user_ids@.len() == 0 ==> r == Err::<Certificate, Error>(Error::NoIdentity),
        user_ids@.len() > 0 && !has_encryption_capable(keys@) ==> r == Err::<
            Certificate,
            Error,
        >(Error::NotEncryptionCapable),
        user_ids@.len() > 0 && has_encryption_capable(keys@) ==> (r matches Ok(c)
            && c@.fingerprint == fingerprint@ && c@.user_ids == user_ids@.map_values(
            |u: String| u@,
        ) && c@.keys == keys@),
{
    if user_ids.len() == 0 {
        return Err(Error::NoIdentity);
    }
    if !encryption_capable(&keys) {
        return Err(Error::NotEncryptionCapable);
    }
    Ok(Certificate { handle, fingerprint, user_ids, keys })
}

/// What `load_certificate` guarantees of a certificate it accepts: the
/// fingerprint and user IDs are the ones the bytes determine, there is at
/// least one user ID, and some key component is encryption-capable.
pub open spec fn loaded_certificate(bytes: Seq<u8>, c: CertificateView) -> bool {
    cert_decoded(bytes) matches Some(id) && c.fingerprint == id.fingerprint && c.user_ids
        == id.user_ids && id.user_ids.len() > 0 && has_encryption_capable(c.keys)
}

/// Loads a certificate from the bytes of a key file and checks the
/// usability invariant: fails with `ParseError` exactly when the bytes do
/// not parse, with `NoIdentity` exactly when the parsed certificate has
/// no user ID, and with `NotEncryptionCapable` when no key component is
/// usable for storage or transport encryption.
pub fn load_certificate(bytes: &[u8]) -> (r: Result<Certificate, Error>)
    ensures
        r == Err::<Certificate, Error>(Error::ParseError) <==> cert_decoded(bytes@) is None,
        r == Err::<Certificate, Error>(Error::NoIdentity) <==> (cert_decoded(bytes@) matches Some(
            id,
        ) && id.user_ids.len() == 0),
        r == Err::<Certificate, Error>(Error::NotEncryptionCapable) ==> (cert_decoded(bytes@)
            matches Some(id) && id.user_ids.len() > 0),
        r matches Ok(c) ==> loaded_certificate(bytes@, c@),
        r matches Err(e) ==> (e == Error::ParseError || e == Error::NoIdentity || e
            == Error::NotEncryptionCapable),
{
    let parsed = parse_cert_bytes(bytes);
    match parsed {
        None => Err(Error::ParseError),
        Some((handle, fingerprint, user_ids)) => {
            let keys = extract_key_components(&handle);
            validate_certificate(handle, fingerprint, user_ids, keys)
        },
    }
}

impl Certificate {
    /// The primary key's upper-case hex fingerprint.
    pub fn fingerprint(&self) -> (r: &String)
        ensures
            r@ == self@.fingerprint,
    {
        &self.fingerprint
    }

    /// The certificate's user IDs, in order.
    pub fn user_ids(&self) -> (r: &Vec<String>)
        ensures
            r@.map_values(|u: String| u@) == self@.user_ids,
    {
        &self.user_ids
    }

    /// The plain record of the certificate's key components.
    pub fn key_components(&self) -> (r: &Vec<KeyComponent>)
        ensures
            r@ == self@.keys,
    {
        &self.keys
    }

    /// The library's parsed form of the certificate.
    pub(crate) fn handle(&self) -> &sequoia_openpgp::Cert {
        &self.handle
    }
}

/// Law: loading the same certificate bytes twice yields certificates with
/// the same fingerprint and the same user IDs.
pub proof fn lemma_load_identity_deterministic(
    bytes: Seq<u8>,
    c1: CertificateView,
    c2: CertificateView,
)
    requires
        loaded_certificate(bytes, c1),
        loaded_certificate(bytes, c2),
    ensures
        c1.fingerprint == c2.fingerprint,
        c1.user_ids == c2.user_ids,
{
}

/// Law: freshly generated key bytes carry exactly the generated user
/// ID, so a certificate re-loaded from them — as the first-run flow
/// does — has exactly that user ID.
pub proof fn lemma_generated_key_identity(user_id: Seq<char>, bytes: Seq<u8>, c: CertificateView)
    requires
        cert_decoded(bytes) matches Some(id) && id.user_ids == seq![user_id],
        loaded_certificate(bytes, c),
    ensures
        c.user_ids == seq![user_id],
{
}

/// Law: a certificate none of whose key components is marked for storage
/// or transport encryption — for instance, one carrying only signing
/// keys — is never encryption-capable, so validation rejects it.
pub proof fn lemma_signing_only_rejected(keys: Seq<KeyComponent>)
    requires
        forall|i: int|
            0 <= i < keys.len() ==> !((#[trigger] keys[i]).for_storage || keys[i].for_transport),
    ensures
        !has_encryption_capable(keys),
{
}

} // verus!
