//! Proof keys for the code exchange (RFC 7636, method `S256`).

use crate::encoding;
use crate::encoding::{base64_url, random_bytes, sha256};
use vstd::prelude::*;
use vstd::utf8::*;

verus! {

/// The challenge of a verifier: the SHA-256 digest of its characters, in
/// base64 for URLs.
pub open spec fn challenge_of(verifier: Seq<char>) -> Seq<char> {
    encoding::base64_url_text(encoding::sha256_of(encode_utf8(verifier)))
}

/// The text consists of letters, digits, `-` and `_`.
pub open spec fn url_safe(s: Seq<char>) -> bool {
    forall|i: int|
        0 <= i < s.len() ==> {
            let c = #[trigger] s[i];
            ||| 'a' <= c <= 'z'
            ||| 'A' <= c <= 'Z'
            ||| '0' <= c <= '9'
            ||| c == '-'
            ||| c == '_'
        }
}

/// Base64 for URLs needs no escaping in a query, whatever the bytes are.
pub proof fn base64_url_is_url_safe(bytes: Seq<u8>)
    ensures
        url_safe(encoding::base64_url_text(bytes)),
        encoding::base64_url_text(bytes).len() == encoding::base64_len(bytes.len()),
{
    let s = encoding::base64_url_text(bytes);
    assert forall|k: int| 0 <= k < s.len() implies {
        let c = #[trigger] s[k];
        ||| 'a' <= c <= 'z'
        ||| 'A' <= c <= 'Z'
        ||| '0' <= c <= '9'
        ||| c == '-'
        ||| c == '_'
    } by {
        let v = encoding::sextet(bytes, k);
        assert(0 <= v < 64);
        assert(s[k] == encoding::base64_char(v, '-', '_'));
    }
}

proof fn lemma_digits_differ(v: int, w: int)
    requires
        0 <= v < 64,
        0 <= w < 64,
        encoding::base64_char(v, '-', '_') == encoding::base64_char(w, '-', '_'),
    ensures
        v == w,
{
}

proof fn lemma_sextets_agree(a: Seq<u8>, b: Seq<u8>, k: int)
    requires
        a.len() == b.len(),
        encoding::base64_url_text(a) == encoding::base64_url_text(b),
        0 <= k < encoding::base64_len(a.len()),
    ensures
        encoding::sextet(a, k) == encoding::sextet(b, k),
{
    let x = encoding::base64_url_text(a);
    let y = encoding::base64_url_text(b);
    assert(x[k] == encoding::base64_char(encoding::sextet(a, k), '-', '_'));
    assert(y[k] == encoding::base64_char(encoding::sextet(b, k), '-', '_'));
    assert(0 <= encoding::sextet(a, k) < 64);
    assert(0 <= encoding::sextet(b, k) < 64);
    lemma_digits_differ(encoding::sextet(a, k), encoding::sextet(b, k));
}

/// Different bytes, of equal number, give different verifiers: two verifiers
/// are as unlikely to agree as the random bytes that they are made of.
pub proof fn verifiers_tell_bytes_apart(a: Seq<u8>, b: Seq<u8>)
    requires
        a.len() == b.len(),
        a != b,
    ensures
        encoding::base64_url_text(a) != encoding::base64_url_text(b),
{
    if encoding::base64_url_text(a) == encoding::base64_url_text(b) {
        assert forall|i: int| 0 <= i < a.len() implies a[i] == b[i] by {
            let j = i / 3;
            if i % 3 == 0 {
                lemma_sextets_agree(a, b, 4 * j);
                lemma_sextets_agree(a, b, 4 * j + 1);
            } else if i % 3 == 1 {
                lemma_sextets_agree(a, b, 4 * j + 1);
                lemma_sextets_agree(a, b, 4 * j + 2);
            } else {
                lemma_sextets_agree(a, b, 4 * j + 2);
                lemma_sextets_agree(a, b, 4 * j + 3);
            }
        }
        assert(a =~= b);
    }
}

/// The verifier of 64 bytes, and its challenge.
pub fn pkce_pair_from(bytes: &[u8; 64]) -> (r: (String, String))
    ensures
        r.0@ == encoding::base64_url_text(bytes@),
        r.1@ == challenge_of(r.0@),
        r.0@.len() == 86,
        url_safe(r.0@),
        r.1@.len() == 43,
        url_safe(r.1@),
{
    let verifier: String = base64_url(bytes);
    let digest: Vec<u8> = sha256(verifier.as_str().as_bytes());
    let challenge: String = base64_url(&digest);
    proof {
        base64_url_is_url_safe(bytes@);
        base64_url_is_url_safe(digest@);
    }
    (verifier, challenge)
}

/// A fresh verifier of 64 random bytes, and its challenge.
pub fn generate_pkce_pair() -> (r: (String, String))
    ensures
        exists|bytes: [u8; 64]| r.0@ == #[trigger] encoding::base64_url_text(bytes@),
        r.1@ == challenge_of(r.0@),
        r.0@.len() == 86,
        url_safe(r.0@),
        r.1@.len() == 43,
        url_safe(r.1@),
{
    let bytes: [u8; 64] = random_bytes();
    pkce_pair_from(&bytes)
}

/// Whoever digests the characters of a verifier as bytes, one each, gets its
/// challenge.
pub proof fn challenges_are_digests_of_the_characters(verifier: Seq<char>)
    requires
        url_safe(verifier),
    ensures
        challenge_of(verifier) == encoding::base64_url_text(
            encoding::sha256_of(Seq::new(verifier.len(), |i: int| verifier[i] as u8)),
        ),
{
    assert(is_ascii_chars(verifier)) by {
        assert forall|i: int| 0 <= i < verifier.len() implies '\0' <= #[trigger] verifier[i]
            <= '\u{7f}' by {}
    }
    is_ascii_chars_encode_utf8(verifier);
    assert(encode_utf8(verifier) =~= Seq::new(verifier.len(), |i: int| verifier[i] as u8));
}

} // verus!
