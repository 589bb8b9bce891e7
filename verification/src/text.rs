//! Interpretation of decrypted bytes as text.

use vstd::prelude::*;

use crate::errors::Error;
use vstd::utf8::{
    decode_first_scalar, decode_utf8, is_leading_byte_width_1, length_of_first_scalar,
    pop_first_scalar, valid_first_scalar, valid_utf8,
};

verus! {

/// A character sequence that stays within the ASCII range.
pub open spec fn ascii_chars(s: Seq<char>) -> bool {
    forall|i: int| 0 <= i < s.len() ==> (s[i] as u32) < 128
}

/// Relies on `String::from_utf8` (std): decodes the bytes as UTF-8,
/// rejecting invalid sequences.
#[verifier::external_body]
fn utf8_to_string(bytes: Vec<u8>) -> (r: Option<String>)
    ensures
        r is Some <==> valid_utf8(bytes@),
        r matches Some(s) ==> s@ == decode_utf8(bytes@),
{
    String::from_utf8(bytes).ok()
}

/// ASCII bytes form valid UTF-8 and decode one byte to one character.
proof fn lemma_ascii_decodes_bytewise(bytes: Seq<u8>)
    requires
        forall|i: int| 0 <= i < bytes.len() ==> bytes[i] < 128,
    ensures
        valid_utf8(bytes),
        decode_utf8(bytes) == bytes.map_values(|b: u8| b as char),
    decreases bytes.len(),
{
    if bytes.len() != 0 {
        let b = bytes[0];
        assert(is_leading_byte_width_1(b));
        assert(b & 0x7F == b) by (bit_vector)
            requires
                b < 128,
        ;
        assert(valid_first_scalar(bytes));
        assert(length_of_first_scalar(bytes) == 1);
        assert(decode_first_scalar(bytes) == b as u32);
        let rest = pop_first_scalar(bytes);
        assert(rest =~= bytes.drop_first());
        lemma_ascii_decodes_bytewise(rest);
        assert(decode_utf8(bytes) =~= bytes.map_values(|x: u8| x as char));
    } else {
        assert(decode_utf8(bytes) =~= bytes.map_values(|x: u8| x as char));
    }
}

/// Turns bytes that are all ASCII into the string of the same
/// characters.
pub(crate) fn ascii_bytes_to_string(bytes: Vec<u8>) -> (r: String)
    requires
        forall|i: int| 0 <= i < bytes@.len() ==> bytes@[i] < 128,
    ensures
        r@ == bytes@.map_values(|b: u8| b as char),
{
    proof {
        lemma_ascii_decodes_bytewise(bytes@);
    }
    let r = utf8_to_string(bytes);
    r.unwrap()
}

/// Interprets decrypted entry bytes as UTF-8 text; anything else is the
/// caller-level `EncodingError`.
pub fn decode_entry_text(bytes: Vec<u8>) -> (r: Result<String, Error>)
    ensures
        r is Ok <==> valid_utf8(bytes@),
        r matches Ok(s) ==> s@ == decode_utf8(bytes@),
        r matches Err(e) ==> e == Error::EncodingError,
{
    match utf8_to_string(bytes) {
        Some(s) => Ok(s),
        None => Err(Error::EncodingError),
    }
}

} // verus!
