//! Random tokens written as hexadecimal text: request identifiers and the
//! shared key.

use rand::RngCore;
use vstd::prelude::*;

verus! {

/// The number of random bytes in a request identifier.
pub const REQUEST_ID_BYTES: usize = 16;

/// The number of random bytes in the shared key.
pub const API_KEY_BYTES: usize = 32;

/// The sixteen digits, in order.
pub open spec fn hex_digits() -> Seq<char> {
    seq!['0', '1', '2', '3', '4', '5', '6', '7', '8', '9', 'a', 'b', 'c', 'd', 'e', 'f']
}

/// The character at position `i` of the text of `bytes`: the high digit of
/// a byte, then its low digit.
pub open spec fn hex_char(bytes: Seq<u8>, i: int) -> char {
    if i % 2 == 0 {
        hex_digits()[bytes[i / 2] as int / 16]
    } else {
        hex_digits()[bytes[i / 2] as int % 16]
    }
}

/// The text of `bytes`: two lower-case digits for each byte.
pub open spec fn hex_text(bytes: Seq<u8>) -> Seq<char> {
    Seq::new(2 * bytes.len(), |i: int| hex_char(bytes, i))
}

/// Whether `text` is the text of some `count` bytes.
pub open spec fn is_token(text: Seq<char>, count: nat) -> bool {
    exists|bytes: Seq<u8>| bytes.len() == count && text == #[trigger] hex_text(bytes)
}

/// Calls `hex::encode`, which writes each byte as its high digit and its
/// low digit, both taken from `0123456789abcdef`.
#[verifier::external_body]
fn hex_encode(bytes: &Vec<u8>) -> (r: String)
    ensures
        r@ == hex_text(bytes@),
{
    hex::encode(bytes)
}

/// Fills a buffer of `count` bytes by `OsRng::try_fill_bytes`, the
/// operating system's random source. `None` where the source fails. Of the
/// bytes nothing is known but their number.
#[verifier::external_body]
fn random_bytes(count: usize) -> (r: Option<Vec<u8>>)
    ensures
        r matches Some(bytes) ==> bytes@.len() == count,
{
    let mut buffer = vec![0u8; count];
    match rand::rngs::OsRng.try_fill_bytes(&mut buffer) {
        Ok(()) => Some(buffer),
        Err(_) => None,
    }
}

/// The token that stands for `bytes`.
pub fn token_from(bytes: &Vec<u8>) -> (r: String)
    ensures
        r@ == hex_text(bytes@),
        is_token(r@, bytes@.len()),
{
    hex_encode(bytes)
}

/// The token for what the random source gave; nothing where it failed.
pub fn token_of(drawn: Option<Vec<u8>>) -> (r: Option<String>)
    ensures
        match drawn {
            Some(bytes) => r matches Some(t) && t@ == hex_text(bytes@),
            None => r.is_none(),
        },
{
    match drawn {
        Some(bytes) => Some(token_from(&bytes)),
        None => None,
    }
}

/// A fresh request identifier: sixteen random bytes as text. `None` where
/// the random source fails.
pub fn new_request_id() -> (r: Option<String>)
    ensures
        r matches Some(id) ==> is_token(id@, REQUEST_ID_BYTES as nat),
{
    token_of(random_bytes(REQUEST_ID_BYTES))
}

/// A fresh shared key: thirty-two random bytes as text. `None` where the
/// random source fails.
pub fn new_api_key() -> (r: Option<String>)
    ensures
        r matches Some(key) ==> is_token(key@, API_KEY_BYTES as nat),
{
    token_of(random_bytes(API_KEY_BYTES))
}

/// A token has two characters for each byte, all of them digits or the
/// letters `a` to `f`.
pub proof fn lemma_token_shape(bytes: Seq<u8>)
    ensures
        hex_text(bytes).len() == 2 * bytes.len(),
        forall|i: int|
            0 <= i < hex_text(bytes).len() ==> hex_digits().contains(#[trigger] hex_text(bytes)[i]),
{
    assert forall|i: int| 0 <= i < hex_text(bytes).len() implies hex_digits().contains(
        #[trigger] hex_text(bytes)[i],
    ) by {
        let b = bytes[i / 2] as int;
        let d = if i % 2 == 0 {
            b / 16
        } else {
            b % 16
        };
        assert(0 <= d < 16);
        assert(hex_text(bytes)[i] == hex_digits()[d]);
    }
}

/// Different bytes never share a token.
pub proof fn lemma_token_injective(a: Seq<u8>, b: Seq<u8>)
    requires
        hex_text(a) == hex_text(b),
    ensures
        a == b,
{
    assert(hex_text(a).len() == 2 * a.len());
    assert(hex_text(b).len() == 2 * b.len());
    assert(a.len() == b.len());
    assert forall|k: int| 0 <= k < a.len() implies a[k] == b[k] by {
        let x = a[k] as int;
        let y = b[k] as int;
        assert(hex_text(a)[2 * k] == hex_char(a, 2 * k));
        assert(hex_text(b)[2 * k] == hex_char(b, 2 * k));
        assert(hex_text(a)[2 * k + 1] == hex_char(a, 2 * k + 1));
        assert(hex_text(b)[2 * k + 1] == hex_char(b, 2 * k + 1));
        assert((2 * k) / 2 == k && (2 * k + 1) / 2 == k);
        assert((2 * k) % 2 == 0 && (2 * k + 1) % 2 == 1);
        assert(hex_digits()[x / 16] == hex_digits()[y / 16]);
        assert(hex_digits()[x % 16] == hex_digits()[y % 16]);
        lemma_digit_injective(x / 16, y / 16);
        lemma_digit_injective(x % 16, y % 16);
    }
    assert(a =~= b);
}

/// The sixteen digits differ from each other.
pub proof fn lemma_digit_injective(m: int, n: int)
    requires
        0 <= m < 16,
        0 <= n < 16,
        hex_digits()[m] == hex_digits()[n],
    ensures
        m == n,
{
}

} // verus!
