//! Encryption and decryption of entry contents.
//!
//! Encrypting selects the recipient's storage-encryption-capable key
//! components and wraps the plaintext in an integrity-protected,
//! ASCII-armored message.  Decrypting matches the message's
//! encrypted-session-key packets against the certificate's secret key
//! components by key identifier, unlocks the first match — with the
//! passphrase handed in once per call when the component is protected —
//! and recovers the plaintext.

use vstd::prelude::*;

use crate::cert::{Certificate, KeyComponent};
use crate::errors::Error;
use sequoia_openpgp::crypto::Password;
use sequoia_openpgp::packet::Packet;
use sequoia_openpgp::parse::{PacketParser, PacketParserResult, Parse};
use sequoia_openpgp::policy::StandardPolicy;
use sequoia_openpgp::serialize::stream::{Armorer, Encryptor, LiteralWriter, Message};
use sequoia_openpgp::KeyID;
use std::io::Read;
use std::io::Write;

verus! {

/// Declaration of the OpenPGP library's unlocked-keypair type; values of
/// it are carried through the core opaquely.
#[verifier::external_type_specification]
#[verifier::external_body]
pub struct ExKeyPair(sequoia_openpgp::crypto::KeyPair);

/// A key component that may receive an encrypted entry: supported by the
/// backend, alive, not revoked, and capable of storage encryption.
pub open spec fn valid_recipient_component(k: KeyComponent) -> bool {
    k.supported && k.alive && !k.revoked && k.for_storage
}

/// Whether any key component may receive an encrypted entry.
pub open spec fn has_valid_recipient(keys: Seq<KeyComponent>) -> bool {
    exists|i: int| 0 <= i < keys.len() && valid_recipient_component(#[trigger] keys[i])
}

/// A key component whose secret material can serve decryption: it
/// carries secret material and is capable of storage or transport
/// encryption.
pub open spec fn decryption_component(k: KeyComponent) -> bool {
    k.has_secret && (k.for_storage || k.for_transport)
}

/// Whether some key component with the given identifier can serve
/// decryption.
pub open spec fn component_match(keys: Seq<KeyComponent>, kid: u64) -> bool {
    exists|j: int|
        0 <= j < keys.len() && (#[trigger] keys[j]).keyid == kid && decryption_component(keys[j])
}

/// Whether a session-key packet's recipient identifier names a key
/// component that can serve decryption.
pub open spec fn recipient_match(keys: Seq<KeyComponent>, id: Option<u64>) -> bool {
    id matches Some(kid) && component_match(keys, kid)
}

/// Whether any session-key packet of the message names a key component
/// that can serve decryption.
pub open spec fn any_recipient_match(keys: Seq<KeyComponent>, ids: Seq<Option<u64>>) -> bool {
    exists|i: int| 0 <= i < ids.len() && recipient_match(keys, #[trigger] ids[i])
}

/// Whether some passphrase-protected key component with the given
/// identifier can serve decryption.
pub open spec fn locked_component_match(keys: Seq<KeyComponent>, kid: u64) -> bool {
    exists|j: int|
        0 <= j < keys.len() && (#[trigger] keys[j]).keyid == kid && decryption_component(keys[j])
            && keys[j].locked
}

/// Whether any session-key packet of the message names a
/// passphrase-protected key component that can serve decryption.
pub open spec fn any_locked_recipient_match(
    keys: Seq<KeyComponent>,
    ids: Seq<Option<u64>>,
) -> bool {
    exists|i: int|
        0 <= i < ids.len() && ((#[trigger] ids[i]) matches Some(kid) && locked_component_match(
            keys,
            kid,
        ))
}

/// A byte sequence that stays within the ASCII range, as armored output
/// does.
pub open spec fn ascii_bytes(s: Seq<u8>) -> bool {
    forall|i: int| 0 <= i < s.len() ==> s[i] < 128
}

/// A byte sequence that opens with the armor head of an OpenPGP
/// message, as every stored entry does.
pub open spec fn armored_pgp_message(s: Seq<u8>) -> bool {
    let head = "-----BEGIN PGP MESSAGE-----"@.map_values(|c: char| c as u8);
    s.len() >= head.len() && s.subrange(0, head.len() as int) == head
}

/// Whether some key component with the given identifier is a valid
/// encryption recipient.
pub open spec fn is_valid_recipient_id(keys: Seq<KeyComponent>, kid: u64) -> bool {
    exists|j: int|
        0 <= j < keys.len() && (#[trigger] keys[j]).keyid == kid && valid_recipient_component(
            keys[j],
        )
}

/// The recipient key identifiers of the message's public-key
/// encrypted-session-key packets, in order of appearance, if the bytes
/// form a readable message; `None` within the listing stands for a
/// wildcard or invalid identifier.  Reading the packet framing is
/// deterministic, so this is a function of the bytes alone; it is given
/// by `message_pkesk_ids`.
pub uninterp spec fn message_recipients(bytes: Seq<u8>) -> Option<Seq<Option<u64>>>;

/// Relies on `PacketParser` (which dearmors automatically): lists the
/// recipient key identifier of every public-key encrypted-session-key
/// packet up to the encrypted payload, in order.
#[verifier::external_body]
fn message_pkesk_ids(ciphertext: &[u8]) -> (r: Option<Vec<Option<u64>>>)
    ensures
        r is Some <==> message_recipients(ciphertext@) is Some,
        r matches Some(v) ==> (message_recipients(ciphertext@) matches Some(ids) && v@ == ids),
{
    let mut ids = Vec::new();
    let mut ppr = PacketParser::from_bytes(ciphertext).ok()?;
    while let PacketParserResult::Some(pp) = ppr {
        match &pp.packet {
            Packet::PKESK(p) => ids.push(p.recipient().and_then(|h| KeyID::from(h).as_u64().ok())),
            Packet::SEIP(_) => return Some(ids),
            _ => {},
        }
        ppr = pp.recurse().ok()?.1;
    }
    Some(ids)
}

/// Relies on `Cert::keys` (secret, policy-valid, encryption-capable),
/// `Key::decrypt_secret` and `Key::into_keypair`: yields the keypair of
/// the secret key component with the given identifier, unlocking it with
/// the passphrase when it is protected.  A failed unlock reports
/// `WrongPassphrase`; a missing component or malformed key material
/// reports `DecryptionFailed`.
#[verifier::external_body]
fn unlock_secret_key(cert: &sequoia_openpgp::Cert, keyid: u64, passphrase: &str) -> (r: Result<
    sequoia_openpgp::crypto::KeyPair,
    Error,
>)
    ensures
        r matches Err(e) ==> e == Error::WrongPassphrase || e == Error::DecryptionFailed,
{
    let p = StandardPolicy::new();
    let want = KeyID::new(keyid);
    let capable = cert.keys().secret().with_policy(&p, None).for_storage_encryption()
        .for_transport_encryption();
    for ka in capable {
        if ka.key().keyid() != want { continue; }
        let key = ka.key().clone();
        let unlocked = if key.has_unencrypted_secret() { key } else {
            key.decrypt_secret(&Password::from(passphrase)).map_err(|_| Error::WrongPassphrase)?
        };
        return unlocked.into_keypair().map_err(|_| Error::DecryptionFailed);
    }
    Err(Error::DecryptionFailed)
}

/// Relies on `PacketParser`, `PKESK::decrypt`, `PacketParser::decrypt`
/// and `MDC::valid`: recovers the session key from the message's
/// encrypted-session-key packets, tried in order, opens the encrypted
/// container with it, and hands back the literal data found inside.
/// Literal data is accepted only after a container was opened — a bare
/// literal packet is no encrypted message and yields `None` — and the
/// container is drained to its end, so its integrity protection is
/// checked: a trailing modification-detection packet whose digest does
/// not match, or an authenticated-encryption chunk that fails to open,
/// yields `None`, as does a packet that yields no session key.
#[verifier::external_body]
fn decrypt_message_with(
    ciphertext: &[u8],
    keypair: &mut sequoia_openpgp::crypto::KeyPair,
) -> (r: Option<Vec<u8>>) {
    let mut sk = None;
    let mut literal = None;
    let mut ppr = PacketParser::from_bytes(ciphertext).ok()?;
    while let PacketParserResult::Some(mut pp) = ppr {
        match &pp.packet {
            Packet::PKESK(p) if sk.is_none() => sk = p.decrypt(keypair, None),
            Packet::SEIP(_) => { let s = sk.as_ref()?; pp.decrypt(s.0, &s.1).ok()?; literal = Some(vec![]); },
            Packet::Literal(_) => { let o = literal.as_mut()?; pp.read_to_end(o).ok()?; },
            Packet::MDC(m) if !m.valid() => return None,
            _ => {},
        }
        ppr = pp.recurse().ok()?.1;
    }
    literal
}

/// Relies on the streaming `Armorer`, `Encryptor` and `LiteralWriter`:
/// encrypts the data for the recipient's supported, alive, unrevoked,
/// storage-encryption-capable keys whose identifiers appear in
/// `allowed`, inside an ASCII-armored wrapping.  A successful result is
/// ASCII, opens with the message armor head, and carries one
/// session-key packet per selected key, each naming that key's
/// identifier — at least one, since the construction fails without
/// recipients.
#[verifier::external_body]
fn encrypt_for_cert(
    data: &[u8],
    recipient: &sequoia_openpgp::Cert,
    allowed: &Vec<u64>,
) -> (r: Option<Vec<u8>>)
    ensures
        r matches Some(ct) ==> ascii_bytes(ct@) && armored_pgp_message(ct@),
        r matches Some(ct) ==> (message_recipients(ct@) matches Some(ids) && ids.len() > 0 && (
        forall|i: int|
            0 <= i < ids.len() ==> ((#[trigger] ids[i]) is Some && allowed@.contains(ids[i]->0)))),
{
    let p = StandardPolicy::new();
    let recipients = recipient.keys().with_policy(&p, None).supported().alive().revoked(false)
        .for_storage_encryption()
        .filter(|ka| ka.key().keyid().as_u64().is_ok_and(|k| contains_u64(allowed, k)));
    let mut sink = Vec::new();
    let message = Message::new(&mut sink);
    let message = Armorer::new(message).build().ok()?;
    let message = Encryptor::for_recipients(message, recipients).build().ok()?;
    let mut w = LiteralWriter::new(message).build().ok()?;
    w.write_all(data).ok()?;
    w.finalize().ok()?;
    Some(sink)
}

/// Whether the value occurs in the vector.
pub(crate) fn contains_u64(v: &Vec<u64>, x: u64) -> (r: bool)
    ensures
        r == v@.contains(x),
{
    let n = v.len();
    let mut i: usize = 0;
    while i < n
        invariant
            i <= n == v@.len(),
            forall|j: int| 0 <= j < i ==> v@[j] != x,
        decreases n - i,
    {
        if v[i] == x {
            return true;
        }
        i = i + 1;
    }
    proof {
        if v@.contains(x) {
            let j = choose|j: int| 0 <= j < v@.len() && v@[j] == x;
            assert(v@[j] != x);
        }
    }
    false
}

/// The identifiers of every valid recipient key component: every listed
/// identifier names a valid recipient, every valid recipient's
/// identifier is listed, and the list is non-empty exactly when some
/// component is a valid recipient.
fn valid_recipient_ids(keys: &Vec<KeyComponent>) -> (r: Vec<u64>)
    ensures
        forall|t: int| 0 <= t < r@.len() ==> is_valid_recipient_id(keys@, #[trigger] r@[t]),
        forall|j: int|
            0 <= j < keys@.len() && valid_recipient_component(#[trigger] keys@[j]) ==> r@.contains(
                keys@[j].keyid,
            ),
        r@.len() > 0 <==> has_valid_recipient(keys@),
{
    let n = keys.len();
    let mut out: Vec<u64> = Vec::new();
    let mut i: usize = 0;
    while i < n
        invariant
            i <= n == keys@.len(),
            forall|t: int| 0 <= t < out@.len() ==> is_valid_recipient_id(keys@, #[trigger] out@[t]),
            forall|j: int|
                0 <= j < i && valid_recipient_component(#[trigger] keys@[j]) ==> out@.contains(
                    keys@[j].keyid,
                ),
            out@.len() > 0 ==> has_valid_recipient(keys@),
        decreases n - i,
    {
        let k = keys[i];
        let ghost prev = out@;
        if k.supported && k.alive && !k.revoked && k.for_storage {
            out.push(k.keyid);
            proof {
                assert(valid_recipient_component(keys@[i as int]));
                assert(out@[prev.len() as int] == keys@[i as int].keyid);
                assert forall|j: int|
                    0 <= j < i + 1 && valid_recipient_component(
                        #[trigger] keys@[j],
                    ) implies out@.contains(keys@[j].keyid) by {
                    if j < i {
                        let t = choose|t: int| 0 <= t < prev.len() && prev[t] == keys@[j].keyid;
                        assert(out@[t] == keys@[j].keyid);
                    }
                }
            }
        }
        i = i + 1;
    }
    proof {
        if has_valid_recipient(keys@) {
            let j = choose|j: int| 0 <= j < keys@.len() && valid_recipient_component(keys@[j]);
            assert(out@.contains(keys@[j].keyid));
        }
    }
    out
}

/// Whether the certificate offers a valid recipient key component.
pub fn valid_recipient_present(keys: &Vec<KeyComponent>) -> (r: bool)
    ensures
        r == has_valid_recipient(keys@),
{
    let n = keys.len();
    let mut i: usize = 0;
    while i < n
        invariant
            i <= n == keys@.len(),
            forall|j: int| 0 <= j < i ==> !valid_recipient_component(#[trigger] keys@[j]),
        decreases n - i,
    {
        let k = keys[i];
        if k.supported && k.alive && !k.revoked && k.for_storage {
            return true;
        }
        i = i + 1;
    }
    false
}

/// The index of some key component with the given identifier that can
/// serve decryption, if one exists.
fn find_decryption_component(keys: &Vec<KeyComponent>, kid: u64) -> (r: Option<usize>)
    ensures
        r is Some <==> component_match(keys@, kid),
        r matches Some(j) ==> j < keys@.len() && keys@[j as int].keyid == kid
            && decryption_component(keys@[j as int]),
{
    let n = keys.len();
    let mut i: usize = 0;
    while i < n
        invariant
            i <= n == keys@.len(),
            forall|j: int|
                0 <= j < i ==> !((#[trigger] keys@[j]).keyid == kid && decryption_component(
                    keys@[j],
                )),
        decreases n - i,
    {
        let k = keys[i];
        if k.keyid == kid && k.has_secret && (k.for_storage || k.for_transport) {
            return Some(i);
        }
        i = i + 1;
    }
    None
}

/// Encrypts the data for the recipient certificate inside an
/// ASCII-armored, integrity-protected message.  Fails with
/// `NoValidRecipientKey` exactly when the certificate has no supported,
/// alive, unrevoked, storage-encryption-capable key component, and with
/// `EncryptionError` when a stage of the construction fails; nothing is
/// partially produced.  A successful result is ASCII text opening with
/// the PGP message armor head, and every session-key packet in it names
/// one of the certificate's valid recipient keys.
pub fn encrypt_data(data: &[u8], recipient: &Certificate) -> (r: Result<Vec<u8>, Error>)
    ensures
        r == Err::<Vec<u8>, Error>(Error::NoValidRecipientKey) <==> !has_valid_recipient(
            recipient@.keys,
        ),
        r matches Ok(ct) ==> ascii_bytes(ct@) && armored_pgp_message(ct@),
        r matches Ok(ct) ==> (message_recipients(ct@) matches Some(ids) && ids.len() > 0 && (forall|
            i: int,
        |
            0 <= i < ids.len() ==> ((#[trigger] ids[i]) is Some && is_valid_recipient_id(
                recipient@.keys,
                ids[i]->0,
            )))),
        r matches Err(e) ==> e == Error::NoValidRecipientKey || e == Error::EncryptionError,
{
    let allowed = valid_recipient_ids(recipient.key_components());
    if allowed.len() == 0 {
        return Err(Error::NoValidRecipientKey);
    }
    match encrypt_for_cert(data, recipient.handle(), &allowed) {
        Some(ct) => {
            proof {
                let ids = choose|ids: Seq<Option<u64>>| message_recipients(ct@) == Some(ids);
                assert forall|i: int| 0 <= i < ids.len() implies ((#[trigger] ids[i]) is Some
                    && is_valid_recipient_id(recipient@.keys, ids[i]->0)) by {
                    assert(ids[i] is Some && allowed@.contains(ids[i]->0));
                    let t = choose|t: int| 0 <= t < allowed@.len() && allowed@[t] == ids[i]->0;
                    assert(is_valid_recipient_id(recipient@.keys, allowed@[t]));
                }
            }
            Ok(ct)
        },
        None => Err(Error::EncryptionError),
    }
}

/// Decrypts the armored ciphertext with the certificate's secret key
/// components, matching the message's session-key packets in order and
/// stopping at the first that succeeds.  The passphrase is used at most
/// for one unlock attempt: a protected component that does not accept it
/// fails with `WrongPassphrase`, without retry.  Ciphertext that is
/// unreadable, or names none of the certificate's decryption-capable
/// components, fails with `DecryptionFailed` — never with made-up
/// plaintext.
pub fn decrypt_data(recipient: &Certificate, ciphertext: &[u8], passphrase: &str) -> (r: Result<
    Vec<u8>,
    Error,
>)
    ensures
        message_recipients(ciphertext@) is None ==> r == Err::<Vec<u8>, Error>(
            Error::DecryptionFailed,
        ),
        (message_recipients(ciphertext@) matches Some(ids) && !any_recipient_match(
            recipient@.keys,
            ids,
        )) ==> r == Err::<Vec<u8>, Error>(Error::DecryptionFailed),
        r matches Ok(_) ==> (message_recipients(ciphertext@) matches Some(ids)
            && any_recipient_match(recipient@.keys, ids)),
        r == Err::<Vec<u8>, Error>(Error::WrongPassphrase) ==> (message_recipients(ciphertext@)
            matches Some(ids) && any_locked_recipient_match(recipient@.keys, ids)),
        r matches Err(e) ==> e == Error::DecryptionFailed || e == Error::WrongPassphrase,
{
    let ids = match message_pkesk_ids(ciphertext) {
        None => { return Err(Error::DecryptionFailed) },
        Some(v) => v,
    };
    let ghost gids = ids@;
    let keys = recipient.key_components();
    let n = ids.len();
    let mut i: usize = 0;
    while i < n
        invariant
            n == ids@.len(),
            i <= n,
            ids@ == gids,
            keys@ == recipient@.keys,
            message_recipients(ciphertext@) == Some(gids),
        decreases n - i,
    {
        match ids[i] {
            None => {},
            Some(kid) => {
                match find_decryption_component(keys, kid) {
                    None => {},
                    Some(ci) => {
                        let component = keys[ci];
                        proof {
                            assert(recipient_match(recipient@.keys, gids[i as int]));
                            assert(any_recipient_match(recipient@.keys, gids));
                        }
                        match unlock_secret_key(recipient.handle(), kid, passphrase) {
                            Ok(mut keypair) => {
                                match decrypt_message_with(ciphertext, &mut keypair) {
                                    Some(plaintext) => { return Ok(plaintext) },
                                    None => {},
                                }
                            },
                            Err(e) => {
                                if component.locked && matches!(e, Error::WrongPassphrase) {
                                    proof {
                                        assert(locked_component_match(recipient@.keys, kid));
                                        assert(any_locked_recipient_match(recipient@.keys, gids));
                                    }
                                    return Err(Error::WrongPassphrase);
                                }
                            },
                        }
                    },
                }
            },
        }
        i = i + 1;
    }
    Err(Error::DecryptionFailed)
}

/// Law: a certificate whose every key component is revoked or not
/// storage-encryption-capable offers no valid recipient key, so
/// encryption refuses it.
pub proof fn lemma_revoked_or_incapable_rejected(keys: Seq<KeyComponent>)
    requires
        forall|i: int|
            0 <= i < keys.len() ==> ((#[trigger] keys[i]).revoked || !keys[i].for_storage),
    ensures
        !has_valid_recipient(keys),
{
}

} // verus!
