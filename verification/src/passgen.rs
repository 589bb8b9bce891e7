//! Random password generation.
//!
//! A password draws uniformly on a fixed pool of characters: ASCII
//! letters and digits, plus punctuation symbols unless excluded.  Only
//! the length and the pool membership of every character are promised;
//! the draws themselves are random.

use vstd::prelude::*;

use crate::text::ascii_bytes_to_string;

verus! {

/// The default length of a generated password.
pub const DEFAULT_PASSWORD_LENGTH: usize = 25;

/// The punctuation symbols a password may draw on.
pub open spec fn symbol_bytes() -> Seq<u8> {
    seq![
        33u8,  // `!`
        64u8,  // `@`
        35u8,  // `#`
        36u8,  // `$`
        37u8,  // `%`
        94u8,  // `^`
        38u8,  // `&`
        42u8,  // `*`
        40u8,  // `(`
        41u8,  // `)`
        95u8,  // `_`
        43u8,  // `+`
        45u8,  // `-`
        61u8,  // `=`
        91u8,  // `[`
        93u8,  // `]`
        123u8,  // `{`
        125u8,  // `}`
        124u8,  // `|`
        59u8,  // `;`
        58u8,  // `:`
        39u8,  // `'`
        44u8,  // `,`
        46u8,  // `.`
        60u8,  // `<`
        62u8,  // `>`
        47u8,  // `/`
        63u8,  // `?`
    ]
}

/// The pool of bytes a generated password draws on: lower-case letters,
/// upper-case letters and digits, plus the symbols unless excluded.
pub open spec fn pool_bytes(no_symbols: bool) -> Seq<u8> {
    Seq::new(26, |i: int| (97 + i) as u8) + Seq::new(26, |i: int| (65 + i) as u8) + Seq::new(
        10,
        |i: int| (48 + i) as u8,
    ) + if no_symbols {
        Seq::<u8>::empty()
    } else {
        symbol_bytes()
    }
}

/// Whether a character belongs to the password pool.
pub open spec fn is_pool_char(c: char, no_symbols: bool) -> bool {
    exists|i: int|
        0 <= i < pool_bytes(no_symbols).len() && c == (#[trigger] pool_bytes(no_symbols)[i]) as char
}

/// Relies on `rand::random_range` over the thread-local generator: an
/// index below the bound.  The draw is random; only the range is
/// promised.
#[verifier::external_body]
fn random_below(bound: usize) -> (r: usize)
    requires
        bound > 0,
    ensures
        r < bound,
{
    rand::random_range(0..bound)
}

/// The consecutive byte range `start .. start + count`.
fn ascii_range(start: u8, count: usize) -> (r: Vec<u8>)
    requires
        start + count <= 256,
    ensures
        r@ == Seq::new(count as nat, |i: int| (start + i) as u8),
{
    let mut out: Vec<u8> = Vec::new();
    let mut i: usize = 0;
    while i < count
        invariant
            i <= count,
            start + count <= 256,
            out@.len() == i,
            forall|j: int| 0 <= j < i ==> out@[j] == (start + j) as u8,
        decreases count - i,
    {
        out.push(start + (i as u8));
        i = i + 1;
    }
    proof {
        assert(out@ =~= Seq::new(count as nat, |i: int| (start + i) as u8));
    }
    out
}

/// Builds the character pool.
fn build_char_pool(no_symbols: bool) -> (r: Vec<u8>)
    ensures
        r@ == pool_bytes(no_symbols),
{
    let mut pool = ascii_range(97, 26);
    let mut upper = ascii_range(65, 26);
    let mut digits = ascii_range(48, 10);
    pool.append(&mut upper);
    pool.append(&mut digits);
    if !no_symbols {
        let symbols: [u8; 28] = [
            33, 64, 35, 36, 37, 94, 38, 42, 40, 41, 95, 43, 45, 61, 91, 93, 123, 125, 124, 59, 58,
            39, 44, 46, 60, 62, 47, 63,
        ];
        let mut i: usize = 0;
        while i < 28
            invariant
                !no_symbols,
                i <= 28,
                symbols@ =~= symbol_bytes(),
                pool@ =~= pool_bytes(no_symbols).take(62 + i),
            decreases 28 - i,
        {
            pool.push(symbols[i]);
            proof {
                assert(pool_bytes(no_symbols).len() == 90);
                assert(pool_bytes(no_symbols)[62 + i] == symbol_bytes()[i as int]);
                assert(symbols@[i as int] == symbol_bytes()[i as int]);
                assert(pool@ =~= pool_bytes(no_symbols).take(62 + i + 1));
            }
            i = i + 1;
        }
        proof {
            assert(pool@ =~= pool_bytes(no_symbols));
        }
    } else {
        proof {
            assert(pool@ =~= pool_bytes(no_symbols));
        }
    }
    pool
}

/// Generates a password of exactly the requested length, every
/// character drawn from the pool.
pub fn generate_password_internal(length: usize, no_symbols: bool) -> (r: String)
    ensures
        r@.len() == length,
        forall|i: int| 0 <= i < r@.len() ==> is_pool_char(#[trigger] r@[i], no_symbols),
{
    let pool = build_char_pool(no_symbols);
    proof {
        assert(pool@.len() >= 62);
        assert forall|j: int| 0 <= j < pool@.len() implies pool@[j] < 128 by {
            if j >= 62 {
                assert(pool_bytes(no_symbols)[j] == symbol_bytes()[j - 62]);
            }
        }
    }
    let mut bytes: Vec<u8> = Vec::new();
    let mut k: usize = 0;
    while k < length
        invariant
            k <= length,
            bytes@.len() == k,
            pool@ == pool_bytes(no_symbols),
            pool@.len() >= 62,
            forall|i: int| 0 <= i < k ==> pool_bytes(no_symbols).contains(#[trigger] bytes@[i]),
            forall|i: int| 0 <= i < k ==> #[trigger] bytes@[i] < 128,
            forall|j: int| 0 <= j < pool@.len() ==> #[trigger] pool@[j] < 128,
        decreases length - k,
    {
        let idx = random_below(pool.len());
        let b = pool[idx];
        bytes.push(b);
        proof {
            assert(pool_bytes(no_symbols).contains(b));
        }
        k = k + 1;
    }
    let r = ascii_bytes_to_string(bytes);
    proof {
        assert forall|i: int| 0 <= i < r@.len() implies is_pool_char(#[trigger] r@[i], no_symbols) by {
            let ghost b = r@[i] as u8;
            let ghost j = choose|j: int|
                0 <= j < pool_bytes(no_symbols).len() && pool_bytes(no_symbols)[j] == b;
        }
    }
    r
}

/// Generates a password of the requested length; a zero length is
/// rejected.
pub fn handle_pass_generate(length: usize, no_symbols: bool) -> (r: Option<String>)
    ensures
        r is Some <==> length > 0,
        r matches Some(pw) ==> pw@.len() == length && (forall|i: int|
            0 <= i < pw@.len() ==> is_pool_char(#[trigger] pw@[i], no_symbols)),
{
    if length == 0 {
        return None;
    }
    Some(generate_password_internal(length, no_symbols))
}

/// The length a generated entry password is asked to have: the given
/// one, or the default.
pub open spec fn requested_length(length: Option<usize>) -> int {
    if length is Some {
        length->0 as int
    } else {
        DEFAULT_PASSWORD_LENGTH as int
    }
}

/// The password content of a new entry: when generation is requested, a
/// pool-drawn password of the given length (or the default); otherwise
/// the typed password exactly as given, or — when nothing was typed — a
/// generated password of the default length with symbols allowed.  Only
/// generation with an explicit zero length yields no content.
pub fn get_password_content(
    typed: &str,
    generate: bool,
    length: Option<usize>,
    no_symbols: bool,
) -> (r: Option<String>)
    ensures
        r is None <==> (generate && length == Some(0usize)),
        generate ==> (r matches Some(c) ==> c@.len() == requested_length(length) && (forall|i: int|
            0 <= i < c@.len() ==> is_pool_char(#[trigger] c@[i], no_symbols))),
        !generate && typed@.len() > 0 ==> (r matches Some(c) && c@ == typed@),
        !generate && typed@.len() == 0 ==> (r matches Some(c) && c@.len()
            == DEFAULT_PASSWORD_LENGTH && (forall|i: int|
            0 <= i < c@.len() ==> is_pool_char(#[trigger] c@[i], false))),
        r matches Some(c) ==> c@.len() > 0,
{
    if generate {
        let n: usize = match length {
            Some(n) => n,
            None => DEFAULT_PASSWORD_LENGTH,
        };
        if n == 0 {
            return None;
        }
        Some(generate_password_internal(n, no_symbols))
    } else if typed.unicode_len() == 0 {
        Some(generate_password_internal(DEFAULT_PASSWORD_LENGTH, false))
    } else {
        Some(typed.to_owned())
    }
}

} // verus!
