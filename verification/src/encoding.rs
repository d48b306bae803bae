//! The encodings that leave the process: form bodies and query strings,
//! base64, and SHA-256 digests.

use crate::text;
use base64::engine::general_purpose::{STANDARD, URL_SAFE_NO_PAD};
use base64::Engine;
use rand::RngCore;
use sha2::Digest;
use vstd::prelude::*;
use vstd::utf8::*;

verus! {

// ---------------------------------------------------------------------------
// application/x-www-form-urlencoded

/// The bytes that the form encoding leaves as they are.
pub open spec fn form_unreserved(b: u8) -> bool {
    ||| 0x30 <= b <= 0x39
    ||| 0x41 <= b <= 0x5a
    ||| 0x61 <= b <= 0x7a
    ||| b == 0x2a
    ||| b == 0x2d
    ||| b == 0x2e
    ||| b == 0x5f
}

/// The upper-case hexadecimal digit of value `d`.
pub open spec fn upper_hex(d: int) -> char {
    if d < 10 {
        (0x30 + d) as char
    } else {
        (0x41 + d - 10) as char
    }
}

/// One byte in the form encoding: itself, `+` for a space, or `%` and two
/// upper-case hexadecimal digits.
pub open spec fn form_byte(b: u8) -> Seq<char> {
    if form_unreserved(b) {
        seq![b as char]
    } else if b == 0x20 {
        seq!['+']
    } else {
        seq!['%', upper_hex(b as int / 16), upper_hex(b as int % 16)]
    }
}

/// The form encoding of a sequence of bytes.
pub open spec fn form_bytes(bytes: Seq<u8>) -> Seq<char>
    decreases bytes.len(),
{
    if bytes.len() == 0 {
        Seq::empty()
    } else {
        form_byte(bytes[0]) + form_bytes(bytes.skip(1))
    }
}

/// The form encoding of a text: that of its UTF-8 bytes.
pub open spec fn form_text(s: Seq<char>) -> Seq<char> {
    form_bytes(encode_utf8(s))
}

/// `name=value`, both encoded.
pub open spec fn form_pair(pair: (Seq<char>, Seq<char>)) -> Seq<char> {
    form_text(pair.0) + seq!['='] + form_text(pair.1)
}

/// The pairs as `name=value`, with `&` between them.
pub open spec fn form_encoded(pairs: Seq<(Seq<char>, Seq<char>)>) -> Seq<char> {
    text::joined(Seq::new(pairs.len(), |i: int| form_pair(pairs[i])), seq!['&'])
}

/// One more pair stands behind the others, after a `&`.
pub proof fn form_encoded_push(
    pairs: Seq<(Seq<char>, Seq<char>)>,
    pair: (Seq<char>, Seq<char>),
)
    requires
        pairs.len() > 0,
    ensures
        form_encoded(pairs.push(pair)) == form_encoded(pairs) + seq!['&'] + form_pair(pair),
{
    let parts = Seq::new(pairs.len(), |i: int| form_pair(pairs[i]));
    let more = Seq::new(pairs.push(pair).len(), |i: int| form_pair(pairs.push(pair)[i]));
    assert(more.drop_last() =~= parts);
    assert(more.last() == form_pair(pair));
}

/// The texts of a list of pairs.
pub open spec fn pair_texts(pairs: Seq<(String, String)>) -> Seq<(Seq<char>, Seq<char>)> {
    Seq::new(pairs.len(), |i: int| (pairs[i].0@, pairs[i].1@))
}

/// `serde_urlencoded::to_string` on a list of pairs of strings: it succeeds,
/// and returns the `application/x-www-form-urlencoded` form of the pairs, in
/// order.
#[verifier::external_body]
pub(crate) fn form_urlencode(pairs: &Vec<(String, String)>) -> (r: String)
    ensures
        r@ == form_encoded(pair_texts(pairs@)),
{
    serde_urlencoded::to_string(pairs).unwrap_or_default()
}

// ---------------------------------------------------------------------------
// base64

/// The base64 digit of value `v`, where `c62` and `c63` are the last two of
/// the alphabet.
pub open spec fn base64_char(v: int, c62: char, c63: char) -> char {
    if v < 26 {
        (0x41 + v) as char
    } else if v < 52 {
        (0x61 + v - 26) as char
    } else if v < 62 {
        (0x30 + v - 52) as char
    } else if v == 62 {
        c62
    } else {
        c63
    }
}

/// The `k`-th group of six bits of `bytes`, with zeros after their end.
pub open spec fn sextet(bytes: Seq<u8>, k: int) -> int {
    let i = 6 * k / 8;
    let hi = bytes[i] as int;
    let lo = if i + 1 < bytes.len() {
        bytes[i + 1] as int
    } else {
        0
    };
    if k % 4 == 0 {
        hi / 4
    } else if k % 4 == 1 {
        (hi % 4) * 16 + lo / 16
    } else if k % 4 == 2 {
        (hi % 16) * 4 + lo / 64
    } else {
        hi % 64
    }
}

/// The number of base64 digits of `n` bytes.
pub open spec fn base64_len(n: nat) -> nat {
    (4 * n + 2) / 3
}

/// The base64 digits of `bytes`, without padding.
pub open spec fn base64_digits(bytes: Seq<u8>, c62: char, c63: char) -> Seq<char> {
    Seq::new(base64_len(bytes.len()), |k: int| base64_char(sextet(bytes, k), c62, c63))
}

/// The base64 form of `bytes` in the URL-safe alphabet, without padding.
pub open spec fn base64_url_text(bytes: Seq<u8>) -> Seq<char> {
    base64_digits(bytes, '-', '_')
}

/// The base64 form of `bytes` in the standard alphabet, padded with `=` to a
/// multiple of four digits.
pub open spec fn base64_std_text(bytes: Seq<u8>) -> Seq<char> {
    let digits = base64_digits(bytes, '+', '/');
    digits + Seq::new(((4 - digits.len() as int % 4) % 4) as nat, |k: int| '=')
}

/// `base64::Engine::encode` of the engine `URL_SAFE_NO_PAD`: the base64 form
/// of `bytes` with `-` and `_`, without padding.
#[verifier::external_body]
pub(crate) fn base64_url(bytes: &[u8]) -> (r: String)
    ensures
        r@ == base64_url_text(bytes@),
{
    URL_SAFE_NO_PAD.encode(bytes)
}

/// `base64::Engine::encode` of the engine `STANDARD`: the base64 form of
/// `bytes` with `+` and `/`, padded with `=`.
#[verifier::external_body]
pub(crate) fn base64_std(bytes: &[u8]) -> (r: String)
    ensures
        r@ == base64_std_text(bytes@),
{
    STANDARD.encode(bytes)
}

// ---------------------------------------------------------------------------
// Digests and random bytes

/// The SHA-256 digest of `data`.
pub uninterp spec fn sha256_of(data: Seq<u8>) -> Seq<u8>;

/// `sha2::Sha256::digest`: the SHA-256 digest of `data`, which has 32 bytes.
#[verifier::external_body]
pub(crate) fn sha256(data: &[u8]) -> (r: Vec<u8>)
    ensures
        r@ == sha256_of(data@),
        r@.len() == 32,
{
    sha2::Sha256::digest(data).to_vec()
}

/// `rand::thread_rng` and `RngCore::fill_bytes`: 64 bytes of the thread's
/// random number generator. Nothing is promised of their values.
#[verifier::external_body]
pub(crate) fn random_bytes() -> (r: [u8; 64])
{
    let mut bytes = [0u8; 64];
    rand::thread_rng().fill_bytes(&mut bytes);
    bytes
}

} // verus!
