//! Reading the redirect that ends an OAuth consent.

use crate::encoding;
use crate::error::GoogleError;
use crate::text;
use crate::text::{
    chars_of, concat, concat3, first_line, second_word, split, split_once, str_eq, utf8_text,
};
use vstd::prelude::*;
use vstd::utf8::*;

verus! {

// ---------------------------------------------------------------------------
// Percent decoding

/// The value of a hexadecimal digit.
pub open spec fn hex_value(c: char) -> Option<int> {
    if '0' <= c <= '9' {
        Some(c as int - '0' as int)
    } else if 'a' <= c <= 'f' {
        Some(c as int - 'a' as int + 10)
    } else if 'A' <= c <= 'F' {
        Some(c as int - 'A' as int + 10)
    } else {
        None
    }
}

/// The number that two characters denote in base 16: two digits, or a plus
/// sign and a digit.
pub open spec fn hex_pair_value(a: char, b: char) -> Option<int> {
    match (hex_value(a), hex_value(b)) {
        (Some(x), Some(y)) => Some(16 * x + y),
        (None, Some(y)) => if a == '+' {
            Some(y)
        } else {
            None
        },
        _ => None,
    }
}

/// `s` with each `%xx` replaced by the character of that code and each `+` by
/// a space. A `%` that no such pair follows stays, with the two characters
/// after it.
pub open spec fn url_decoded(s: Seq<char>) -> Seq<char>
    decreases s.len(),
{
    if s.len() == 0 {
        Seq::empty()
    } else if s[0] == '%' {
        if s.len() >= 3 && hex_pair_value(s[1], s[2]) is Some {
            seq![(hex_pair_value(s[1], s[2])->0) as char] + url_decoded(s.skip(3))
        } else if s.len() >= 3 {
            s.take(3) + url_decoded(s.skip(3))
        } else {
            s
        }
    } else if s[0] == '+' {
        seq![' '] + url_decoded(s.skip(1))
    } else {
        seq![s[0]] + url_decoded(s.skip(1))
    }
}

fn hex_digit(c: char) -> (r: Option<u8>)
    ensures
        match r {
            Some(v) => v < 16 && hex_value(c) == Some(v as int),
            None => hex_value(c) is None,
        },
{
    if '0' <= c && c <= '9' {
        Some((c as u32 - 48) as u8)
    } else if 'a' <= c && c <= 'f' {
        Some((c as u32 - 97 + 10) as u8)
    } else if 'A' <= c && c <= 'F' {
        Some((c as u32 - 65 + 10) as u8)
    } else {
        None
    }
}

fn hex_pair(a: char, b: char) -> (r: Option<u8>)
    ensures
        match r {
            Some(v) => hex_pair_value(a, b) == Some(v as int),
            None => hex_pair_value(a, b) is None,
        },
{
    match (hex_digit(a), hex_digit(b)) {
        (Some(x), Some(y)) => Some(16 * x + y),
        (None, Some(y)) => if a == '+' {
            Some(y)
        } else {
            None
        },
        _ => None,
    }
}

/// Undoes the percent encoding of a query value.
pub fn urldecode(s: &str) -> (r: String)
    ensures
        r@ == url_decoded(s@),
{
    let v: Vec<char> = chars_of(s);
    let mut out: String = String::new();
    let mut i: usize = 0;
    assert(v@.skip(0) =~= v@);
    assert(out@ + url_decoded(v@) =~= url_decoded(v@));
    while i < v.len()
        invariant
            v@ == s@,
            i <= v@.len(),
            out@ + url_decoded(v@.skip(i as int)) == url_decoded(s@),
        decreases v@.len() - i,
    {
        let ghost rest = v@.skip(i as int);
        let ghost before = out@;
        let c: char = v[i];
        if c == '%' {
            if v.len() - i >= 3 {
                assert(rest.skip(3) =~= v@.skip(i + 3));
                match hex_pair(v[i + 1], v[i + 2]) {
                    Some(b) => {
                        out.push(b as char);
                        assert(out@ =~= before + seq![b as char]);
                    },
                    None => {
                        out.push('%');
                        out.push(v[i + 1]);
                        out.push(v[i + 2]);
                        assert(out@ =~= before + rest.take(3));
                    },
                }
                assert(out@ + url_decoded(v@.skip(i + 3)) =~= before + url_decoded(rest));
                i = i + 3;
            } else {
                out.push('%');
                if v.len() - i == 2 {
                    out.push(v[i + 1]);
                }
                assert(out@ =~= before + rest);
                i = v.len();
                assert(url_decoded(v@.skip(i as int)) =~= Seq::<char>::empty());
            }
        } else {
            if c == '+' {
                out.push(' ');
                assert(out@ =~= before + seq![' ']);
            } else {
                out.push(c);
                assert(out@ =~= before + seq![c]);
            }
            assert(rest.skip(1) =~= v@.skip(i + 1));
            assert(out@ + url_decoded(v@.skip(i + 1)) =~= before + url_decoded(rest));
            i = i + 1;
        }
    }
    assert(out@ + url_decoded(v@.skip(i as int)) =~= out@);
    out
}

// ---------------------------------------------------------------------------
// The callback query

/// What follows the first `?` of a request path.
pub open spec fn query_of(path: Seq<char>) -> Seq<char> {
    match text::split_once_at(path, '?') {
        Some((_, q)) => q,
        None => Seq::empty(),
    }
}

/// The decoded value of the last `key=value` among `pairs`.
pub open spec fn last_value(pairs: Seq<Seq<char>>, key: Seq<char>) -> Option<Seq<char>>
    decreases pairs.len(),
{
    if pairs.len() == 0 {
        None
    } else {
        match text::split_once_at(pairs.last(), '=') {
            Some((k, v)) => if k == key {
                Some(url_decoded(v))
            } else {
                last_value(pairs.drop_last(), key)
            },
            None => last_value(pairs.drop_last(), key),
        }
    }
}

/// The parameter `key` of the query of `path`.
pub open spec fn query_value(path: Seq<char>, key: Seq<char>) -> Option<Seq<char>> {
    last_value(text::split_on(query_of(path), '&'), key)
}

/// The parameters `code` and `state` of a callback path.
pub fn parse_callback_query(path: &str) -> (r: (Option<String>, Option<String>))
    ensures
        text::opt_text(r.0) == query_value(path@, "code"@),
        text::opt_text(r.1) == query_value(path@, "state"@),
{
    let q: String = match split_once(path, '?') {
        Some((_, q)) => q,
        None => String::new(),
    };
    let pairs: Vec<String> = split(q.as_str(), '&');
    let ghost all = text::texts(pairs@);
    let mut code: Option<String> = None;
    let mut state: Option<String> = None;
    let mut i: usize = 0;
    assert(all.take(0) =~= Seq::<Seq<char>>::empty());
    while i < pairs.len()
        invariant
            i <= pairs@.len(),
            all == text::texts(pairs@),
            text::opt_text(code) == last_value(all.take(i as int), "code"@),
            text::opt_text(state) == last_value(all.take(i as int), "state"@),
        decreases pairs@.len() - i,
    {
        assert(all.take(i + 1).drop_last() =~= all.take(i as int));
        assert(all.take(i + 1).last() == pairs@[i as int]@);
        match split_once(pairs[i].as_str(), '=') {
            Some((k, v)) => {
                if str_eq(k.as_str(), "code") {
                    proof {
                        reveal_strlit("code");
                        reveal_strlit("state");
                        assert("code"@.len() != "state"@.len());
                    }
                    code = Some(urldecode(v.as_str()));
                } else if str_eq(k.as_str(), "state") {
                    state = Some(urldecode(v.as_str()));
                }
            },
            None => {},
        }
        i = i + 1;
    }
    assert(all.take(all.len() as int) =~= all);
    (code, state)
}

// ---------------------------------------------------------------------------
// The request of the browser

/// The path that the first line of a request asks for.
pub open spec fn request_path(request: Seq<u8>) -> Seq<char> {
    if valid_utf8(request) {
        text::nth_word(text::first_line_of(decode_utf8(request)), 1)
    } else {
        Seq::empty()
    }
}

/// The page that reports a failure to the user.
pub open spec fn failure_page_text(reason: Seq<char>) -> Seq<char> {
    "HTTP/1.1 400 Bad Request\r\nContent-Type: text/html\r\n\r\n<html><body style='font-family:sans-serif;padding:40px;text-align:center'><h2>Authorisation failed</h2><p>"@
        + reason + "</p></body></html>"@
}

/// The page that reports a success to the user.
pub open spec fn success_page_text() -> Seq<char> {
    "HTTP/1.1 200 OK\r\nContent-Type: text/html\r\n\r\n<html><body style='font-family:sans-serif;padding:40px;text-align:center'><h2>Authorisation received ✓</h2><p>You can close this tab. Return to the agent.</p></body></html>"@
}

/// The page that reports a failure to the user.
pub fn failure_page(reason: &str) -> (r: String)
    ensures
        r@ == failure_page_text(reason@),
{
    concat3(
        "HTTP/1.1 400 Bad Request\r\nContent-Type: text/html\r\n\r\n<html><body style='font-family:sans-serif;padding:40px;text-align:center'><h2>Authorisation failed</h2><p>",
        reason,
        "</p></body></html>",
    )
}

/// What is done with a callback.
pub enum CallbackStep {
    /// Show the page, and give up.
    Reject { page: String, error: GoogleError },
    /// Redeem the authorisation code.
    Exchange(String),
}

/// The consent that waits for `expected_state` takes the code of `path`.
pub open spec fn accepted_code(path: Seq<char>, expected_state: Seq<char>) -> Option<Seq<char>> {
    if query_value(path, "state"@) == Some(expected_state) {
        query_value(path, "code"@)
    } else {
        None
    }
}

/// What is done with a callback to `path`, on behalf of the consent with the
/// given state.
pub open spec fn callback_outcome(
    path: Seq<char>,
    expected_state: Seq<char>,
    r: CallbackStep,
) -> bool {
    match r {
        CallbackStep::Exchange(code) => accepted_code(path, expected_state) == Some(code@),
        CallbackStep::Reject { page, error } => {
            &&& accepted_code(path, expected_state) is None
            &&& if query_value(path, "state"@) != Some(expected_state) {
                error is StateMismatch && page@ == failure_page_text("state mismatch"@)
            } else {
                error is MissingCode && page@ == failure_page_text("no code in callback"@)
            }
        },
    }
}

/// Reads the request that a browser sent to the callback address, on behalf
/// of the consent with the given state.
pub fn read_callback(request: &[u8], expected_state: &str) -> (r: CallbackStep)
    ensures
        callback_outcome(request_path(request@), expected_state@, r),
{
    let path: String = match utf8_text(request) {
        Some(s) => second_word(first_line(s.as_str()).as_str()),
        None => String::new(),
    };
    let (code, state) = parse_callback_query(path.as_str());
    let matching: bool = match state {
        Some(s) => str_eq(s.as_str(), expected_state),
        None => false,
    };
    if !matching {
        return CallbackStep::Reject {
            page: failure_page("state mismatch"),
            error: GoogleError::StateMismatch,
        };
    }
    match code {
        Some(c) => CallbackStep::Exchange(c),
        None => CallbackStep::Reject {
            page: failure_page("no code in callback"),
            error: GoogleError::MissingCode,
        },
    }
}

/// The page that ends a consent: a success, or the failure of the exchange.
pub fn exchange_page(failure: Option<&GoogleError>) -> (r: String)
    ensures
        r@ == (match failure {
            None => success_page_text(),
            Some(e) => failure_page_text("token exchange failed: "@ + e.text()),
        }),
{
    match failure {
        None =>
            "HTTP/1.1 200 OK\r\nContent-Type: text/html\r\n\r\n<html><body style='font-family:sans-serif;padding:40px;text-align:center'><h2>Authorisation received ✓</h2><p>You can close this tab. Return to the agent.</p></body></html>".to_owned(),
        Some(e) => failure_page(concat("token exchange failed: ", e.message().as_str()).as_str()),
    }
}

// ---------------------------------------------------------------------------
// What is encoded is read back

proof fn lemma_decode_byte(b: u8, rest: Seq<char>)
    ensures
        url_decoded(encoding::form_byte(b) + rest) == seq![b as char] + url_decoded(rest),
{
    let s = encoding::form_byte(b) + rest;
    if encoding::form_unreserved(b) || b == 0x20 {
        assert(s.skip(1) =~= rest);
    } else {
        let h = b as int / 16;
        let l = b as int % 16;
        assert(s[0] == '%');
        assert(s[1] == encoding::upper_hex(h));
        assert(s[2] == encoding::upper_hex(l));
        assert(hex_value(encoding::upper_hex(h)) == Some(h));
        assert(hex_value(encoding::upper_hex(l)) == Some(l));
        assert(s.skip(3) =~= rest);
    }
}

/// Decoding the form encoding of some bytes gives the characters with their
/// codes.
pub proof fn decoding_form_bytes(bytes: Seq<u8>)
    ensures
        url_decoded(encoding::form_bytes(bytes)) == Seq::new(
            bytes.len(),
            |i: int| bytes[i] as char,
        ),
    decreases bytes.len(),
{
    if bytes.len() == 0 {
        assert(url_decoded(encoding::form_bytes(bytes)) =~= Seq::new(
            bytes.len(),
            |i: int| bytes[i] as char,
        ));
    } else {
        lemma_decode_byte(bytes[0], encoding::form_bytes(bytes.skip(1)));
        decoding_form_bytes(bytes.skip(1));
        assert(url_decoded(encoding::form_bytes(bytes)) =~= Seq::new(
            bytes.len(),
            |i: int| bytes[i] as char,
        ));
    }
}

/// Decoding undoes the form encoding of every ASCII text.
pub proof fn decoding_undoes_form_encoding(s: Seq<char>)
    requires
        is_ascii_chars(s),
    ensures
        url_decoded(encoding::form_text(s)) == s,
{
    is_ascii_chars_encode_utf8(s);
    let bytes = encode_utf8(s);
    decoding_form_bytes(bytes);
    assert forall|i: int| 0 <= i < s.len() implies bytes[i] as char == s[i] by {
        assert(s[i] as u8 == bytes[i]);
        assert('\0' <= s[i] <= '\u{7f}');
    }
    assert(url_decoded(encoding::form_text(s)) =~= s);
}

/// The form encoding holds no separator.
proof fn lemma_form_bytes_plain(bytes: Seq<u8>)
    ensures
        forall|i: int|
            0 <= i < encoding::form_bytes(bytes).len() ==> {
                let c = #[trigger] encoding::form_bytes(bytes)[i];
                c != '&' && c != '='
            },
    decreases bytes.len(),
{
    if bytes.len() > 0 {
        let head = encoding::form_byte(bytes[0]);
        let tail = encoding::form_bytes(bytes.skip(1));
        lemma_form_bytes_plain(bytes.skip(1));
        assert forall|i: int| 0 <= i < (head + tail).len() implies {
            let c = #[trigger] (head + tail)[i];
            c != '&' && c != '='
        } by {
            if i < head.len() {
                assert((head + tail)[i] == head[i]);
            } else {
                assert((head + tail)[i] == tail[i - head.len()]);
            }
        }
    }
}

proof fn lemma_joined_front(parts: Seq<Seq<char>>, sep: Seq<char>)
    requires
        parts.len() >= 2,
    ensures
        text::joined(parts, sep) == parts[0] + sep + text::joined(parts.skip(1), sep),
    decreases parts.len(),
{
    if parts.len() == 2 {
        assert(text::joined(parts.drop_last(), sep) == parts[0]);
        assert(text::joined(parts.skip(1), sep) == parts[1]);
        assert(text::joined(parts, sep) =~= parts[0] + sep + text::joined(parts.skip(1), sep));
    } else {
        lemma_joined_front(parts.drop_last(), sep);
        assert(parts.drop_last().skip(1) =~= parts.skip(1).drop_last());
        assert(text::joined(parts, sep) =~= parts[0] + sep + text::joined(parts.skip(1), sep));
    }
}

/// Splitting at `sep` undoes joining with it, where no part holds it.
pub proof fn splitting_undoes_joining(parts: Seq<Seq<char>>, sep: char)
    requires
        parts.len() > 0,
        forall|i: int| 0 <= i < parts.len() ==> !(#[trigger] parts[i]).contains(sep),
    ensures
        text::split_on(text::joined(parts, seq![sep]), sep) == parts,
    decreases parts.len(),
{
    let s = text::joined(parts, seq![sep]);
    let first = parts[0];
    assert(!first.contains(sep));
    if parts.len() == 1 {
        text::lemma_find_char_is(s, sep, s.len() as int);
        assert(text::split_on(s, sep) =~= parts);
    } else {
        lemma_joined_front(parts, seq![sep]);
        let rest = text::joined(parts.skip(1), seq![sep]);
        assert(s =~= first + seq![sep] + rest);
        assert forall|k: int| 0 <= k < first.len() implies s[k] != sep by {
            assert(s[k] == first[k]);
        }
        text::lemma_find_char_is(s, sep, first.len() as int);
        assert(s.take(first.len() as int) =~= first);
        assert(s.skip(first.len() as int + 1) =~= rest);
        assert forall|i: int| 0 <= i < parts.skip(1).len() implies !(#[trigger] parts.skip(
            1,
        )[i]).contains(sep) by {
            assert(parts.skip(1)[i] == parts[i + 1]);
        }
        splitting_undoes_joining(parts.skip(1), sep);
        assert(text::split_on(s, sep) =~= parts);
    }
}

/// The value of the last of `pairs` with the given name.
pub open spec fn last_of(pairs: Seq<(Seq<char>, Seq<char>)>, name: Seq<char>) -> Option<Seq<char>>
    decreases pairs.len(),
{
    if pairs.len() == 0 {
        None
    } else if pairs.last().0 == name {
        Some(pairs.last().1)
    } else {
        last_of(pairs.drop_last(), name)
    }
}

/// The pair at position `i` is the last of its name.
pub proof fn lemma_last_of_at(pairs: Seq<(Seq<char>, Seq<char>)>, i: int)
    requires
        0 <= i < pairs.len(),
        forall|j: int| i < j < pairs.len() ==> (#[trigger] pairs[j]).0 != pairs[i].0,
    ensures
        last_of(pairs, pairs[i].0) == Some(pairs[i].1),
    decreases pairs.len(),
{
    if i < pairs.len() - 1 {
        let front = pairs.drop_last();
        assert(pairs[pairs.len() - 1].0 != pairs[i].0);
        assert(front[i] == pairs[i]);
        assert forall|j: int| i < j < front.len() implies (#[trigger] front[j]).0 != front[i].0 by {
            assert(front[j] == pairs[j]);
        }
        lemma_last_of_at(front, i);
    }
}

/// No pair has the name.
pub proof fn lemma_last_of_none(pairs: Seq<(Seq<char>, Seq<char>)>, name: Seq<char>)
    requires
        forall|j: int| 0 <= j < pairs.len() ==> (#[trigger] pairs[j]).0 != name,
    ensures
        last_of(pairs, name) is None,
    decreases pairs.len(),
{
    if pairs.len() > 0 {
        let front = pairs.drop_last();
        assert(pairs[pairs.len() - 1].0 != name);
        assert forall|j: int| 0 <= j < front.len() implies (#[trigger] front[j]).0 != name by {
            assert(front[j] == pairs[j]);
        }
        lemma_last_of_none(front, name);
    }
}

/// Texts with the same form encoding are equal.
pub proof fn form_encoding_is_injective(a: Seq<char>, b: Seq<char>)
    requires
        encoding::form_text(a) == encoding::form_text(b),
    ensures
        a == b,
{
    let x = encode_utf8(a);
    let y = encode_utf8(b);
    decoding_form_bytes(x);
    decoding_form_bytes(y);
    let cx = Seq::new(x.len(), |i: int| x[i] as char);
    let cy = Seq::new(y.len(), |i: int| y[i] as char);
    assert(cx == cy);
    assert(cx.len() == cy.len());
    assert forall|i: int| 0 <= i < x.len() implies x[i] == y[i] by {
        assert(cx[i] == cy[i]);
        assert(x[i] as char == y[i] as char);
    }
    assert(x =~= y);
    encode_utf8_decode_utf8(a);
    encode_utf8_decode_utf8(b);
}

proof fn lemma_last_value(pairs: Seq<(Seq<char>, Seq<char>)>, name: Seq<char>)
    requires
        last_of(pairs, name) matches Some(v) ==> is_ascii_chars(v),
        encoding::form_text(name) == name,
    ensures
        last_value(Seq::new(pairs.len(), |i: int| encoding::form_pair(pairs[i])), name) == last_of(
            pairs,
            name,
        ),
    decreases pairs.len(),
{
    let parts = Seq::new(pairs.len(), |i: int| encoding::form_pair(pairs[i]));
    if pairs.len() > 0 {
        let p = pairs.last();
        let k = encoding::form_text(p.0);
        let v = encoding::form_text(p.1);
        let s = encoding::form_pair(p);
        lemma_form_bytes_plain(encode_utf8(p.0));
        assert forall|i: int| 0 <= i < k.len() implies s[i] != '=' by {
            assert(s[i] == k[i]);
        }
        assert(s[k.len() as int] == '=');
        text::lemma_find_char_is(s, '=', k.len() as int);
        assert(s.take(k.len() as int) =~= k);
        assert(s.skip(k.len() as int + 1) =~= v);
        assert(parts.drop_last() =~= Seq::new(
            pairs.drop_last().len(),
            |i: int| encoding::form_pair(pairs.drop_last()[i]),
        ));
        if p.0 == name {
            decoding_undoes_form_encoding(p.1);
        } else {
            if k == name {
                form_encoding_is_injective(p.0, name);
            }
            lemma_last_value(pairs.drop_last(), name);
        }
    }
}

proof fn lemma_plain_name(name: Seq<char>)
    requires
        is_ascii_chars(name),
        forall|i: int| 0 <= i < name.len() ==> ('a' <= #[trigger] name[i] <= 'z' || name[i] == '_'),
    ensures
        encoding::form_text(name) == name,
{
    is_ascii_chars_encode_utf8(name);
    let bytes = encode_utf8(name);
    assert forall|i: int| 0 <= i < bytes.len() implies (0x61 <= #[trigger] bytes[i] <= 0x7a
        || bytes[i] == 0x5f) && bytes[i] as char == name[i] by {
        assert(name[i] as u8 == bytes[i]);
        assert('a' <= name[i] <= 'z' || name[i] == '_');
    }
    lemma_plain_bytes(bytes);
    assert(encoding::form_text(name) =~= name);
}

proof fn lemma_plain_bytes(bytes: Seq<u8>)
    requires
        forall|i: int|
            0 <= i < bytes.len() ==> (0x61 <= #[trigger] bytes[i] <= 0x7a || bytes[i] == 0x5f),
    ensures
        encoding::form_bytes(bytes) == Seq::new(bytes.len(), |i: int| bytes[i] as char),
    decreases bytes.len(),
{
    if bytes.len() > 0 {
        assert forall|i: int| 0 <= i < bytes.skip(1).len() implies (0x61
            <= #[trigger] bytes.skip(1)[i] <= 0x7a || bytes.skip(1)[i] == 0x5f) by {
            assert(bytes.skip(1)[i] == bytes[i + 1]);
        }
        lemma_plain_bytes(bytes.skip(1));
    }
    assert(encoding::form_bytes(bytes) =~= Seq::new(bytes.len(), |i: int| bytes[i] as char));
}

/// A query gives back what it was made of: where it is the form encoding of
/// `pairs`, the last pair of a name is read for that name. The value is ASCII;
/// all else in the query may be any text.
pub proof fn queries_give_back_what_was_encoded(
    base: Seq<char>,
    pairs: Seq<(Seq<char>, Seq<char>)>,
    name: Seq<char>,
)
    requires
        !base.contains('?'),
        forall|i: int| 0 <= i < name.len() ==> ('a' <= #[trigger] name[i] <= 'z' || name[i] == '_'),
        last_of(pairs, name) matches Some(v) ==> is_ascii_chars(v),
    ensures
        query_value(base + seq!['?'] + encoding::form_encoded(pairs), name) == last_of(pairs, name),
{
    let q = encoding::form_encoded(pairs);
    let path = base + seq!['?'] + q;
    assert forall|k: int| 0 <= k < base.len() implies path[k] != '?' by {
        assert(path[k] == base[k]);
    }
    text::lemma_find_char_is(path, '?', base.len() as int);
    assert(path.skip(base.len() as int + 1) =~= q);
    let parts = Seq::new(pairs.len(), |i: int| encoding::form_pair(pairs[i]));
    assert forall|i: int| 0 <= i < parts.len() implies !(#[trigger] parts[i]).contains('&') by {
        let k = encoding::form_text(pairs[i].0);
        let v = encoding::form_text(pairs[i].1);
        lemma_form_bytes_plain(encode_utf8(pairs[i].0));
        lemma_form_bytes_plain(encode_utf8(pairs[i].1));
        assert forall|j: int| 0 <= j < parts[i].len() implies parts[i][j] != '&' by {
            if j < k.len() {
                assert(parts[i][j] == k[j]);
            } else if j > k.len() {
                assert(parts[i][j] == v[j - k.len() - 1]);
            }
        }
    }
    if pairs.len() > 0 {
        splitting_undoes_joining(parts, '&');
    } else {
        assert(text::split_on(q, '&') =~= seq![Seq::<char>::empty()]);
        assert(text::split_on(q, '&').drop_last() =~= parts);
    }
    lemma_plain_name(name);
    lemma_last_value(pairs, name);
}

/// A callback gives back the code and the state that its query was made of:
/// where the query is the form encoding of `pairs`, the callback reads the last
/// pair named `code` and the last named `state`. These two values are ASCII;
/// all else in the query may be any text.
pub proof fn callback_reads_what_was_encoded(
    base: Seq<char>,
    pairs: Seq<(Seq<char>, Seq<char>)>,
)
    requires
        !base.contains('?'),
        last_of(pairs, "code"@) matches Some(v) ==> is_ascii_chars(v),
        last_of(pairs, "state"@) matches Some(v) ==> is_ascii_chars(v),
    ensures
        query_value(base + seq!['?'] + encoding::form_encoded(pairs), "code"@) == last_of(
            pairs,
            "code"@,
        ),
        query_value(base + seq!['?'] + encoding::form_encoded(pairs), "state"@) == last_of(
            pairs,
            "state"@,
        ),
{
    reveal_strlit("code");
    reveal_strlit("state");
    queries_give_back_what_was_encoded(base, pairs, "code"@);
    queries_give_back_what_was_encoded(base, pairs, "state"@);
}

/// The path of a well-formed request line is read back, whatever follows the
/// line.
pub proof fn request_path_is_read(path: Seq<char>, tail: Seq<char>)
    requires
        path.len() > 0,
        forall|i: int| 0 <= i < path.len() ==> !text::is_space(#[trigger] path[i]),
    ensures
        request_path(encode_utf8("GET "@ + path + " HTTP/1.1\r\n"@ + tail)) == path,
{
    let s = "GET "@ + path + " HTTP/1.1\r\n"@ + tail;
    encode_utf8_valid_utf8(s);
    encode_utf8_decode_utf8(s);
    reveal_strlit("GET ");
    reveal_strlit(" HTTP/1.1\r\n");
    let n = path.len() as int;
    let line = s.take(n + 13);
    assert(s[n + 13] == '\r');
    assert(s[n + 14] == '\n');
    assert forall|k: int| 0 <= k < n + 14 implies s[k] != '\n' by {
        if 4 <= k < n + 4 {
            assert(s[k] == path[k - 4]);
        } else if k >= n + 4 {
            assert(s[k] == " HTTP/1.1\r\n"@[k - n - 4]);
        }
    }
    text::lemma_find_char_is(s, '\n', n + 14);
    assert(text::first_line_of(s) == line);

    assert(text::trim_front(line) == line);
    text::lemma_word_len_is(line, 3);
    let rest = line.skip(3);
    let word = rest.skip(1);
    assert(text::is_space(rest[0]));
    assert(word[0] == path[0]);
    assert(!text::is_space(path[0]));
    assert(text::trim_front(word) == word);
    assert(text::trim_front(rest) == word);
    assert forall|k: int| 0 <= k < n implies !text::is_space(#[trigger] word[k]) by {
        assert(word[k] == path[k]);
    }
    assert(word[n] == ' ');
    text::lemma_word_len_is(word, n);
    assert(word.take(n) =~= path);
    assert(text::words(line) == seq![line.take(3)] + text::words(rest));
    assert(text::words(rest) == seq![word.take(n)] + text::words(word.skip(n)));
    assert(text::words(line)[1] == path);
}

/// The form encoding holds no white space.
proof fn lemma_form_bytes_unspaced(bytes: Seq<u8>)
    ensures
        forall|i: int|
            0 <= i < encoding::form_bytes(bytes).len() ==> !text::is_space(
                #[trigger] encoding::form_bytes(bytes)[i],
            ),
    decreases bytes.len(),
{
    if bytes.len() > 0 {
        let head = encoding::form_byte(bytes[0]);
        let tail = encoding::form_bytes(bytes.skip(1));
        lemma_form_bytes_unspaced(bytes.skip(1));
        assert forall|i: int| 0 <= i < (head + tail).len() implies !text::is_space(
            #[trigger] (head + tail)[i],
        ) by {
            if i < head.len() {
                assert((head + tail)[i] == head[i]);
            } else {
                assert((head + tail)[i] == tail[i - head.len()]);
            }
        }
    }
}

proof fn lemma_joined_unspaced(parts: Seq<Seq<char>>)
    requires
        forall|i: int, j: int|
            0 <= i < parts.len() && 0 <= j < parts[i].len() ==> !text::is_space(
                #[trigger] parts[i][j],
            ),
    ensures
        forall|i: int|
            0 <= i < text::joined(parts, seq!['&']).len() ==> !text::is_space(
                #[trigger] text::joined(parts, seq!['&'])[i],
            ),
    decreases parts.len(),
{
    if parts.len() >= 2 {
        let front = text::joined(parts.drop_last(), seq!['&']);
        let all = text::joined(parts, seq!['&']);
        assert forall|i: int, j: int|
            0 <= i < parts.drop_last().len() && 0 <= j < parts.drop_last()[i].len()
                implies !text::is_space(#[trigger] parts.drop_last()[i][j]) by {
            assert(parts.drop_last()[i][j] == parts[i][j]);
        }
        lemma_joined_unspaced(parts.drop_last());
        assert(all =~= front + seq!['&'] + parts.last());
        assert forall|i: int| 0 <= i < all.len() implies !text::is_space(#[trigger] all[i]) by {
            if i < front.len() {
                assert(all[i] == front[i]);
            } else if i > front.len() {
                assert(all[i] == parts[parts.len() - 1][i - front.len() - 1]);
            }
        }
    } else if parts.len() == 1 {
        let all = text::joined(parts, seq!['&']);
        assert forall|i: int| 0 <= i < all.len() implies !text::is_space(#[trigger] all[i]) by {
            assert(all[i] == parts[0][i]);
        }
    }
}

/// The redirect that Google sends the browser to is accepted: a request for
/// `/callback` whose query is the form encoding of `pairs`, with the state of
/// the consent and a code among them, hands over that code.
pub proof fn redirects_are_accepted(
    pairs: Seq<(Seq<char>, Seq<char>)>,
    state: Seq<char>,
    code: Seq<char>,
    tail: Seq<char>,
)
    requires
        last_of(pairs, "state"@) == Some(state),
        last_of(pairs, "code"@) == Some(code),
        is_ascii_chars(state),
        is_ascii_chars(code),
    ensures
        accepted_code(
            request_path(
                encode_utf8(
                    "GET "@ + ("/callback"@ + seq!['?'] + encoding::form_encoded(pairs))
                        + " HTTP/1.1\r\n"@ + tail,
                ),
            ),
            state,
        ) == Some(code),
{
    let query = encoding::form_encoded(pairs);
    let path = "/callback"@ + seq!['?'] + query;
    reveal_strlit("/callback");
    let parts = Seq::new(pairs.len(), |i: int| encoding::form_pair(pairs[i]));
    assert forall|i: int, j: int|
        0 <= i < parts.len() && 0 <= j < parts[i].len() implies !text::is_space(
        #[trigger] parts[i][j],
    ) by {
        let k = encoding::form_text(pairs[i].0);
        let v = encoding::form_text(pairs[i].1);
        lemma_form_bytes_unspaced(encode_utf8(pairs[i].0));
        lemma_form_bytes_unspaced(encode_utf8(pairs[i].1));
        if j < k.len() {
            assert(parts[i][j] == k[j]);
        } else if j > k.len() {
            assert(parts[i][j] == v[j - k.len() - 1]);
        }
    }
    lemma_joined_unspaced(parts);
    assert forall|i: int| 0 <= i < path.len() implies !text::is_space(#[trigger] path[i]) by {
        if i > 9 {
            assert(path[i] == query[i - 10]);
        }
    }
    request_path_is_read(path, tail);
    assert(!"/callback"@.contains('?'));
    callback_reads_what_was_encoded("/callback"@, pairs);
}

/// A callback that carries another state than that of the consent, or none,
/// hands over no code.
pub proof fn foreign_callbacks_are_refused(path: Seq<char>, state: Seq<char>)
    requires
        query_value(path, "state"@) != Some(state),
    ensures
        accepted_code(path, state) is None,
{
}

/// The pieces between separators hold none of them, and joined with the
/// separator they are the text again.
pub proof fn splitting_loses_nothing(s: Seq<char>, sep: char)
    ensures
        text::split_on(s, sep).len() > 0,
        forall|i: int|
            0 <= i < text::split_on(s, sep).len() ==> !(#[trigger] text::split_on(
                s,
                sep,
            )[i]).contains(sep),
        text::joined(text::split_on(s, sep), seq![sep]) == s,
    decreases s.len(),
{
    let n = text::find_char(s, sep);
    text::lemma_find_char(s, sep);
    let pieces = text::split_on(s, sep);
    if n < s.len() {
        let rest = s.skip(n + 1);
        splitting_loses_nothing(rest, sep);
        assert(pieces =~= seq![s.take(n)] + text::split_on(rest, sep));
        assert(pieces.skip(1) =~= text::split_on(rest, sep));
        lemma_joined_front(pieces, seq![sep]);
        assert(s =~= s.take(n) + seq![sep] + rest);
        assert forall|i: int| 0 <= i < pieces.len() implies !(#[trigger] pieces[i]).contains(sep) by {
            if i > 0 {
                assert(pieces[i] == text::split_on(rest, sep)[i - 1]);
            }
        }
    } else {
        assert(pieces =~= seq![s]);
    }
}

/// Decoding goes through the text from its front. An escape of two hexadecimal
/// digits, in either letter case, is the character of that code, a plus sign is
/// a blank, and every other character is itself. A percent sign that begins no
/// escape stays, with the two characters behind it.
pub proof fn decoding_by_cases(c: char, a: char, b: char, rest: Seq<char>)
    ensures
        url_decoded(Seq::empty()) == Seq::<char>::empty(),
        c != '%' && c != '+' ==> url_decoded(seq![c] + rest) == seq![c] + url_decoded(rest),
        url_decoded(seq!['+'] + rest) == seq![' '] + url_decoded(rest),
        url_decoded(seq!['%']) == seq!['%'],
        url_decoded(seq!['%', a]) == seq!['%', a],
        is_hex_digit(a) && is_hex_digit(b) ==> url_decoded(seq!['%', a, b] + rest) == seq![
            (16 * digit_number(a) + digit_number(b)) as char,
        ] + url_decoded(rest),
        !is_hex_digit(b) || (!is_hex_digit(a) && a != '+') ==> url_decoded(seq!['%', a, b] + rest)
            == seq!['%', a, b] + url_decoded(rest),
{
    assert((seq![c] + rest).skip(1) =~= rest);
    assert((seq!['+'] + rest).skip(1) =~= rest);
    let s = seq!['%', a, b] + rest;
    assert(s[0] == '%' && s[1] == a && s[2] == b);
    assert(s.skip(3) =~= rest);
    assert(s.take(3) =~= seq!['%', a, b]);
}

/// A hexadecimal digit, in either letter case.
pub open spec fn is_hex_digit(c: char) -> bool {
    48 <= c as int <= 57 || 65 <= c as int <= 70 || 97 <= c as int <= 102
}

/// The number of a hexadecimal digit.
pub open spec fn digit_number(c: char) -> int {
    if c as int <= 57 {
        c as int - 48
    } else if c as int <= 70 {
        c as int - 55
    } else {
        c as int - 87
    }
}

/// A query is read to its end: a parameter at its end counts for its own name,
/// in place of any earlier one, and for no other name. A parameter without a
/// value, and a path without a query, say nothing.
pub proof fn the_last_parameter_counts(
    base: Seq<char>,
    query: Seq<char>,
    name: Seq<char>,
    value: Seq<char>,
    key: Seq<char>,
)
    requires
        !base.contains('?'),
        !name.contains('='),
        !name.contains('&'),
        !value.contains('&'),
    ensures
        query_value(base, key) is None,
        query_value(base + seq!['?'] + (name + seq!['='] + value), key) == (if name == key {
            Some(url_decoded(value))
        } else {
            None
        }),
        query_value(base + seq!['?'] + (query + seq!['&'] + (name + seq!['='] + value)), key) == (
        if name == key {
            Some(url_decoded(value))
        } else {
            query_value(base + seq!['?'] + query, key)
        }),
        query_value(base + seq!['?'] + (query + seq!['&'] + name), key) == query_value(
            base + seq!['?'] + query,
            key,
        ),
{
    let pair = name + seq!['='] + value;
    text::splitting_once_takes_the_first(name, '=', value);
    text::splitting_once_takes_the_first(base, '?', pair);
    text::splitting_once_takes_the_first(base, '?', query);
    text::splitting_once_takes_the_first(base, '?', query + seq!['&'] + pair);
    text::splitting_once_takes_the_first(base, '?', query + seq!['&'] + name);
    assert(!pair.contains('&')) by {
        assert forall|i: int| 0 <= i < pair.len() implies pair[i] != '&' by {
            if i < name.len() {
                assert(name.contains(name[i]));
            } else if i > name.len() {
                assert(value.contains(value[i - name.len() - 1]));
            }
        }
    }
    let empty = Seq::<char>::empty();
    text::splitting_goes_part_by_part(empty, '&', empty);
    text::splitting_goes_part_by_part(pair, '&', empty);
    text::splitting_goes_part_by_part(name, '&', empty);
    text::splitting_goes_part_by_part(query, '&', pair);
    text::splitting_goes_part_by_part(query, '&', name);
    let all = text::split_on(query, '&');
    assert((all + seq![pair]).drop_last() =~= all);
    assert((all + seq![name]).drop_last() =~= all);
    assert(seq![pair].drop_last() =~= Seq::<Seq<char>>::empty());
    assert(seq![empty].drop_last() =~= Seq::<Seq<char>>::empty());
    reveal_with_fuel(last_value, 2);
    text::lemma_find_char(empty, '=');
    assert(text::split_once_at(empty, '=') is None);
}

/// The path is the second word of the first line, whatever the method and what
/// follows.
pub proof fn any_request_names_its_path(
    method: Seq<char>,
    path: Seq<char>,
    rest: Seq<char>,
    tail: Seq<char>,
)
    requires
        method.len() > 0,
        path.len() > 0,
        forall|i: int| 0 <= i < method.len() ==> !text::is_space(#[trigger] method[i]),
        forall|i: int| 0 <= i < path.len() ==> !text::is_space(#[trigger] path[i]),
        !rest.contains('\n'),
    ensures
        request_path(
            encode_utf8(method + seq![' '] + path + seq![' '] + rest + seq!['\r', '\n'] + tail),
        ) == path,
{
    let line = method + seq![' '] + path + seq![' '] + rest;
    let s = line + seq!['\r', '\n'] + tail;
    encode_utf8_valid_utf8(s);
    encode_utf8_decode_utf8(s);
    let m = method.len() as int;
    let n = path.len() as int;
    assert(!line.contains('\n')) by {
        assert forall|i: int| 0 <= i < line.len() implies line[i] != '\n' by {
            if i < m {
                assert(line[i] == method[i]);
            } else if m < i < m + 1 + n {
                assert(line[i] == path[i - m - 1]);
            } else if i > m + 1 + n {
                assert(line[i] == rest[i - m - n - 2]);
                assert(rest.contains(rest[i - m - n - 2]));
            }
        }
    }
    text::first_lines_end_at_a_line_feed(line, tail);
    assert(line[0] == method[0]);
    assert(text::trim_front(line) == line);
    assert forall|k: int| 0 <= k < m implies !text::is_space(#[trigger] line[k]) by {
        assert(line[k] == method[k]);
    }
    assert(line[m] == ' ');
    text::lemma_word_len_is(line, m);
    let after = line.skip(m);
    let word = after.skip(1);
    assert(after[0] == ' ');
    assert(word[0] == path[0]);
    assert(text::trim_front(word) == word);
    assert(text::trim_front(after) == word);
    assert forall|k: int| 0 <= k < n implies !text::is_space(#[trigger] word[k]) by {
        assert(word[k] == path[k]);
    }
    assert(word[n] == ' ');
    text::lemma_word_len_is(word, n);
    assert(word.take(n) =~= path);
    assert(text::words(line) == seq![line.take(m)] + text::words(after));
    assert(text::words(after) == seq![word.take(n)] + text::words(word.skip(n)));
    assert(text::words(line)[1] == path);
}

/// A failure is shown as a bad request that gives the reason; a success is
/// shown as such.
pub proof fn pages_tell_the_outcome(reason: Seq<char>)
    ensures
        "HTTP/1.1 400 Bad Request\r\n"@.is_prefix_of(failure_page_text(reason)),
        text::occurs("<p>"@ + reason + "</p>"@, failure_page_text(reason)),
        "HTTP/1.1 200 OK\r\n"@.is_prefix_of(success_page_text()),
{
    reveal_strlit("HTTP/1.1 400 Bad Request\r\n");
    reveal_strlit("HTTP/1.1 200 OK\r\n");
    reveal_strlit("<p>");
    reveal_strlit("</p>");
    reveal_strlit("</p></body></html>");
    reveal_strlit(
        "HTTP/1.1 400 Bad Request\r\nContent-Type: text/html\r\n\r\n<html><body style='font-family:sans-serif;padding:40px;text-align:center'><h2>Authorisation failed</h2><p>",
    );
    reveal_strlit(
        "HTTP/1.1 200 OK\r\nContent-Type: text/html\r\n\r\n<html><body style='font-family:sans-serif;padding:40px;text-align:center'><h2>Authorisation received ✓</h2><p>You can close this tab. Return to the agent.</p></body></html>",
    );
    let page = failure_page_text(reason);
    let head =
        "HTTP/1.1 400 Bad Request\r\nContent-Type: text/html\r\n\r\n<html><body style='font-family:sans-serif;padding:40px;text-align:center'><h2>Authorisation failed</h2><p>"@;
    let needle = "<p>"@ + reason + "</p>"@;
    assert("HTTP/1.1 400 Bad Request\r\n"@ =~= page.subrange(0, 26));
    assert("HTTP/1.1 200 OK\r\n"@ =~= success_page_text().subrange(0, 17));
    let at = head.len() - 3;
    assert(page =~= head.take(at) + needle + "</p></body></html>"@.skip(4));
    let w = text::occurrences_are_parts(
        needle,
        head.take(at),
        "</p></body></html>"@.skip(4),
        page,
    );
}

/// A redirect hands over its code exactly where it carries the state of the
/// consent; the failure says whether the state or the code is missing.
pub proof fn redirects_are_judged_by_their_state(path: Seq<char>, state: Seq<char>, r: CallbackStep)
    requires
        callback_outcome(path, state, r),
    ensures
        match (query_value(path, "state"@), query_value(path, "code"@)) {
            (Some(s), Some(c)) => if s == state {
                r matches CallbackStep::Exchange(code) && code@ == c
            } else {
                r matches CallbackStep::Reject { page, error } && error is StateMismatch
            },
            (Some(s), None) => r matches CallbackStep::Reject { page, error } && (if s == state {
                error is MissingCode
            } else {
                error is StateMismatch
            }),
            (None, _) => r matches CallbackStep::Reject { page, error } && error is StateMismatch,
        },
{
}

} // verus!
