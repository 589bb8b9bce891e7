//! Validation of one-time-password entry contents.
//!
//! An OTP entry stores exactly one `otpauth://` URI; before it is
//! encrypted into the store, the URI's scheme is checked and the OTP
//! library must accept its shape.  Generating codes from a stored URI
//! depends on the current time and stays with the caller.

use vstd::prelude::*;

use crate::resolver::str_equal;
use totp_rs::Totp;

verus! {

/// Whether the OTP library accepts the URI as a TOTP configuration.
/// Parsing is deterministic, so this is a function of the URI alone; it
/// is given by `totp_uri_parses`.
pub uninterp spec fn totp_uri_accepted(uri: Seq<char>) -> bool;

/// Relies on `Totp::from_url_unchecked`: whether the URI parses as a
/// TOTP configuration, without checking secret-strength constraints.
#[verifier::external_body]
fn totp_uri_parses(uri: &str) -> (r: bool)
    ensures
        r == totp_uri_accepted(uri@),
{
    Totp::from_url_unchecked(uri).is_ok()
}

/// Whether the string starts with the `otpauth://` scheme.
pub open spec fn has_otpauth_scheme(s: Seq<char>) -> bool {
    s.len() >= 10 && s.subrange(0, 10) == "otpauth://"@
}

/// Validates an already-trimmed otpauth URI for a new OTP entry: it
/// must carry the `otpauth://` scheme and be accepted by the OTP
/// library; it is stored exactly as given.
pub fn normalize_otpauth_uri(uri: &str) -> (r: Option<String>)
    ensures
        r is Some <==> has_otpauth_scheme(uri@) && totp_uri_accepted(uri@),
        r matches Some(s) ==> s@ == uri@,
{
    if uri.unicode_len() < 10 {
        return None;
    }
    let prefix = uri.substring_char(0, 10);
    if !str_equal(prefix, "otpauth://") {
        return None;
    }
    if !totp_uri_parses(uri) {
        return None;
    }
    Some(uri.to_owned())
}

} // verus!
