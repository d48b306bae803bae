//! Text operations over sequences of Unicode scalar values.
//!
//! A `&str` or a `String` is modelled by its view, a `Seq<char>`. The
//! executable functions copy the characters into a `Vec<char>` where they
//! need to address them by position.

use vstd::prelude::*;
use vstd::utf8::*;

verus! {

/// `String::push` appends the character at the end of the string and leaves
/// the rest of it as it was.
pub assume_specification[ String::push ](s: &mut String, ch: char)
    ensures
        final(s)@ == old(s)@.push(ch),
;

/// The texts of a sequence of strings.
pub open spec fn texts(v: Seq<String>) -> Seq<Seq<char>> {
    Seq::new(v.len(), |i: int| v[i]@)
}

/// The text of an optional string.
pub open spec fn opt_text(s: Option<String>) -> Option<Seq<char>> {
    match s {
        Some(t) => Some(t@),
        None => None,
    }
}

/// The characters of `s`, in order.
pub fn chars_of(s: &str) -> (v: Vec<char>)
    ensures
        v@ == s@,
{
    let mut v: Vec<char> = Vec::new();
    for c in it: s.chars()
        invariant
            it.seq() == s@,
            v@ == s@.take(it.index() as int),
    {
        v.push(c);
        assert(s@.take(it.index() as int).push(c) == s@.take(it.index() as int + 1));
    }
    assert(s@.take(s@.len() as int) == s@);
    v
}

/// The string that holds `v[from..to]`.
pub fn string_of(v: &[char], from: usize, to: usize) -> (r: String)
    requires
        from <= to <= v@.len(),
    ensures
        r@ == v@.subrange(from as int, to as int),
{
    let mut r: String = String::new();
    let mut i: usize = from;
    while i < to
        invariant
            from <= i <= to <= v@.len(),
            r@ == v@.subrange(from as int, i as int),
        decreases to - i,
    {
        r.push(v[i]);
        assert(v@.subrange(from as int, i as int).push(v@[i as int]) == v@.subrange(
            from as int,
            i + 1,
        ));
        i = i + 1;
    }
    r
}

/// Whether two strings hold the same characters.
pub fn str_eq(a: &str, b: &str) -> (r: bool)
    ensures
        r == (a@ == b@),
{
    let x: Vec<char> = chars_of(a);
    let y: Vec<char> = chars_of(b);
    if x.len() != y.len() {
        return false;
    }
    let mut i: usize = 0;
    while i < x.len()
        invariant
            i <= x@.len(),
            x@.len() == y@.len(),
            x@ == a@,
            y@ == b@,
            forall|k: int| 0 <= k < i ==> x@[k] == y@[k],
        decreases x@.len() - i,
    {
        if x[i] != y[i] {
            return false;
        }
        i = i + 1;
    }
    assert(a@ =~= b@);
    true
}

/// Whether the text is empty.
pub fn is_empty(s: &str) -> (r: bool)
    ensures
        r == (s@.len() == 0),
{
    let v: Vec<char> = chars_of(s);
    v.len() == 0
}

/// `a` followed by `b`.
pub fn concat(a: &str, b: &str) -> (r: String)
    ensures
        r@ == a@ + b@,
{
    let mut r: String = a.to_owned();
    r.append(b);
    r
}

/// `a`, `b` and `c`, one after the other.
pub fn concat3(a: &str, b: &str, c: &str) -> (r: String)
    ensures
        r@ == a@ + b@ + c@,
{
    let mut r: String = concat(a, b);
    r.append(c);
    r
}

/// `a`, `b`, `c` and `d`, one after the other.
pub fn concat4(a: &str, b: &str, c: &str, d: &str) -> (r: String)
    ensures
        r@ == a@ + b@ + c@ + d@,
{
    let mut r: String = concat3(a, b, c);
    r.append(d);
    r
}

/// `a`, `b`, `c`, `d` and `e`, one after the other.
pub fn concat5(a: &str, b: &str, c: &str, d: &str, e: &str) -> (r: String)
    ensures
        r@ == a@ + b@ + c@ + d@ + e@,
{
    let mut r: String = concat3(a, b, c);
    r.append(d);
    r.append(e);
    r
}

/// An owned copy of every string, in order.
pub fn copy_texts(v: &[String]) -> (r: Vec<String>)
    ensures
        texts(r@) == texts(v@),
        r@.len() == v@.len(),
{
    let mut r: Vec<String> = Vec::new();
    let mut i: usize = 0;
    while i < v.len()
        invariant
            i <= v@.len(),
            r@.len() == i,
            forall|k: int| 0 <= k < i ==> r@[k]@ == v@[k]@,
        decreases v@.len() - i,
    {
        r.push(v[i].as_str().to_owned());
        i = i + 1;
    }
    assert(texts(r@) =~= texts(v@));
    r
}

/// An owned copy of an optional string.
pub fn copy_opt(s: &Option<String>) -> (r: Option<String>)
    ensures
        opt_text(r) == opt_text(*s),
{
    match s {
        Some(t) => Some(t.as_str().to_owned()),
        None => None,
    }
}

// ---------------------------------------------------------------------------
// Prefixes and occurrences

/// `needle` stands in `hay` at position `i`.
pub open spec fn occurs_at(needle: Seq<char>, hay: Seq<char>, i: int) -> bool {
    0 <= i <= hay.len() - needle.len() && hay.subrange(i, i + needle.len()) == needle
}

/// `needle` is a contiguous part of `hay`.
pub open spec fn occurs(needle: Seq<char>, hay: Seq<char>) -> bool {
    exists|i: int| occurs_at(needle, hay, i)
}

fn matches_at(hay: &[char], needle: &[char], at: usize) -> (r: bool)
    requires
        at + needle@.len() <= hay@.len(),
    ensures
        r == (hay@.subrange(at as int, at + needle@.len()) == needle@),
{
    let end: usize = hay.len();
    let mut k: usize = 0;
    while k < needle.len()
        invariant
            k <= needle@.len(),
            at + needle@.len() <= hay@.len() == end,
            forall|j: int| 0 <= j < k ==> hay@[at + j] == needle@[j],
        decreases needle@.len() - k,
    {
        if hay[at + k] != needle[k] {
            assert(hay@.subrange(at as int, at + needle@.len())[k as int] != needle@[k as int]);
            return false;
        }
        k = k + 1;
    }
    assert(hay@.subrange(at as int, at + needle@.len()) =~= needle@);
    true
}

/// Whether `s` begins with `prefix`.
pub fn starts_with(s: &str, prefix: &str) -> (r: bool)
    ensures
        r == prefix@.is_prefix_of(s@),
{
    let x: Vec<char> = chars_of(s);
    let p: Vec<char> = chars_of(prefix);
    if p.len() > x.len() {
        return false;
    }
    matches_at(&x, &p, 0)
}

/// Whether `s` ends with `suffix`.
pub fn ends_with(s: &str, suffix: &str) -> (r: bool)
    ensures
        r == suffix@.is_suffix_of(s@),
{
    let x: Vec<char> = chars_of(s);
    let p: Vec<char> = chars_of(suffix);
    if p.len() > x.len() {
        return false;
    }
    matches_at(&x, &p, x.len() - p.len())
}

/// Whether `needle` occurs anywhere in `s`.
pub fn contains(s: &str, needle: &str) -> (r: bool)
    ensures
        r == occurs(needle@, s@),
{
    let x: Vec<char> = chars_of(s);
    let p: Vec<char> = chars_of(needle);
    if p.len() > x.len() {
        return false;
    }
    let last: usize = x.len() - p.len();
    let mut i: usize = 0;
    while i <= last
        invariant
            x@ == s@,
            p@ == needle@,
            last == x@.len() - p@.len(),
            i <= last + 1,
            forall|k: int| 0 <= k < i ==> !occurs_at(p@, x@, k),
        decreases last + 1 - i,
    {
        if matches_at(&x, &p, i) {
            assert(occurs_at(p@, x@, i as int));
            return true;
        }
        if i == last {
            assert(!occurs(p@, x@));
            return false;
        }
        i = i + 1;
    }
    false
}

// ---------------------------------------------------------------------------
// Splitting and joining

/// The position of the first `c` in `s`, or `s.len()` where there is none.
pub open spec fn find_char(s: Seq<char>, c: char) -> int
    decreases s.len(),
{
    if s.len() == 0 {
        0
    } else if s[0] == c {
        0
    } else {
        1 + find_char(s.skip(1), c)
    }
}

/// `find_char` is the least position that holds `c`.
pub proof fn lemma_find_char(s: Seq<char>, c: char)
    ensures
        0 <= find_char(s, c) <= s.len(),
        forall|k: int| 0 <= k < find_char(s, c) ==> s[k] != c,
        find_char(s, c) < s.len() ==> s[find_char(s, c)] == c,
    decreases s.len(),
{
    if s.len() > 0 && s[0] != c {
        lemma_find_char(s.skip(1), c);
        assert forall|k: int| 0 <= k < find_char(s, c) implies s[k] != c by {
            if k > 0 {
                assert(s[k] == s.skip(1)[k - 1]);
            }
        }
    }
}

/// A position with these properties is `find_char`.
pub proof fn lemma_find_char_is(s: Seq<char>, c: char, n: int)
    requires
        0 <= n <= s.len(),
        forall|k: int| 0 <= k < n ==> s[k] != c,
        n < s.len() ==> s[n] == c,
    ensures
        find_char(s, c) == n,
{
    lemma_find_char(s, c);
}

fn find(v: &[char], c: char, from: usize) -> (r: usize)
    requires
        from <= v@.len(),
    ensures
        from <= r <= v@.len(),
        r - from == find_char(v@.skip(from as int), c),
{
    let mut i: usize = from;
    while i < v.len() && v[i] != c
        invariant
            from <= i <= v@.len(),
            forall|k: int| from <= k < i ==> v@[k] != c,
        decreases v@.len() - i,
    {
        i = i + 1;
    }
    proof {
        lemma_find_char_is(v@.skip(from as int), c, i - from);
    }
    i
}

/// What stands before the first `c` and what stands after it; `None` where
/// `s` holds no `c`.
pub open spec fn split_once_at(s: Seq<char>, c: char) -> Option<(Seq<char>, Seq<char>)> {
    let n = find_char(s, c);
    if n < s.len() {
        Some((s.take(n), s.skip(n + 1)))
    } else {
        None
    }
}

/// The two parts of `s` around its first `c`.
pub fn split_once(s: &str, c: char) -> (r: Option<(String, String)>)
    ensures
        match r {
            Some((a, b)) => split_once_at(s@, c) == Some((a@, b@)),
            None => split_once_at(s@, c) is None,
        },
{
    let v: Vec<char> = chars_of(s);
    let n: usize = find(&v, c, 0);
    assert(v@.skip(0) =~= v@);
    if n < v.len() {
        let a: String = string_of(&v, 0, n);
        let b: String = string_of(&v, n + 1, v.len());
        assert(a@ =~= s@.take(n as int));
        assert(b@ =~= s@.skip(n + 1));
        Some((a, b))
    } else {
        None
    }
}

/// The pieces of `s` between its separators: one more than there are
/// separators, and possibly empty ones.
pub open spec fn split_on(s: Seq<char>, sep: char) -> Seq<Seq<char>>
    decreases s.len(),
{
    let n = find_char(s, sep);
    if 0 <= n < s.len() {
        seq![s.take(n)] + split_on(s.skip(n + 1), sep)
    } else {
        seq![s]
    }
}

/// The pieces of `s` between the occurrences of `sep`.
pub fn split(s: &str, sep: char) -> (r: Vec<String>)
    ensures
        texts(r@) == split_on(s@, sep),
{
    let v: Vec<char> = chars_of(s);
    let mut out: Vec<String> = Vec::new();
    let mut start: usize = 0;
    assert(v@.skip(0) =~= v@);
    assert(texts(out@) + split_on(v@.skip(0), sep) =~= split_on(v@, sep));
    loop
        invariant
            v@ == s@,
            start <= v@.len(),
            texts(out@) + split_on(v@.skip(start as int), sep) == split_on(s@, sep),
        decreases v@.len() - start,
    {
        let n: usize = find(&v, sep, start);
        let ghost before = out@;
        let ghost rest = v@.skip(start as int);
        let piece: String = string_of(&v, start, n);
        assert(piece@ =~= rest.take(n - start));
        out.push(piece);
        assert(texts(out@) =~= texts(before).push(piece@));
        if n == v.len() {
            assert(rest.take(n - start) =~= rest);
            assert(texts(out@) =~= texts(before) + split_on(rest, sep));
            return out;
        }
        assert(rest.skip(n - start + 1) =~= v@.skip(n + 1));
        assert(texts(out@) + split_on(v@.skip(n + 1), sep) =~= texts(before) + split_on(rest, sep));
        start = n + 1;
    }
}

/// The parts with `sep` between each two of them.
pub open spec fn joined(parts: Seq<Seq<char>>, sep: Seq<char>) -> Seq<char>
    decreases parts.len(),
{
    if parts.len() == 0 {
        Seq::empty()
    } else if parts.len() == 1 {
        parts[0]
    } else {
        joined(parts.drop_last(), sep) + sep + parts.last()
    }
}

/// The strings of `parts` with `sep` between each two of them.
pub fn join(parts: &[String], sep: &str) -> (r: String)
    ensures
        r@ == joined(texts(parts@), sep@),
{
    let mut r: String = String::new();
    let mut i: usize = 0;
    assert(texts(parts@).take(0) =~= Seq::<Seq<char>>::empty());
    while i < parts.len()
        invariant
            i <= parts@.len(),
            r@ == joined(texts(parts@).take(i as int), sep@),
        decreases parts@.len() - i,
    {
        let ghost whole = texts(parts@);
        assert(whole.take(i + 1).drop_last() =~= whole.take(i as int));
        if i > 0 {
            r.append(sep);
        }
        r.append(parts[i].as_str());
        assert(whole.take(i + 1).last() == parts@[i as int]@);
        assert(r@ =~= joined(whole.take(i + 1), sep@));
        i = i + 1;
    }
    assert(texts(parts@).take(parts@.len() as int) =~= texts(parts@));
    r
}

/// The first line of `s`, without the line feed, or the carriage return and
/// line feed, that end it.
pub open spec fn first_line_of(s: Seq<char>) -> Seq<char> {
    let n = find_char(s, '\n');
    if 0 < n < s.len() && s[n - 1] == '\r' {
        s.take(n - 1)
    } else {
        s.take(n)
    }
}

/// The first line of `s`.
pub fn first_line(s: &str) -> (r: String)
    ensures
        r@ == first_line_of(s@),
{
    let v: Vec<char> = chars_of(s);
    let n: usize = find(&v, '\n', 0);
    assert(v@.skip(0) =~= v@);
    let end: usize = if 0 < n && n < v.len() && v[n - 1] == '\r' {
        n - 1
    } else {
        n
    };
    let r: String = string_of(&v, 0, end);
    assert(r@ =~= s@.take(end as int));
    r
}

// ---------------------------------------------------------------------------
// White space

/// The characters with the Unicode property `White_Space`.
pub open spec fn is_space(c: char) -> bool {
    ||| '\u{0009}' <= c <= '\u{000d}'
    ||| c == '\u{0020}'
    ||| c == '\u{0085}'
    ||| c == '\u{00a0}'
    ||| c == '\u{1680}'
    ||| '\u{2000}' <= c <= '\u{200a}'
    ||| c == '\u{2028}'
    ||| c == '\u{2029}'
    ||| c == '\u{202f}'
    ||| c == '\u{205f}'
    ||| c == '\u{3000}'
}

/// Whether `c` is white space.
pub fn is_whitespace(c: char) -> (r: bool)
    ensures
        r == is_space(c),
{
    ('\u{0009}' <= c && c <= '\u{000d}') || c == '\u{0020}' || c == '\u{0085}' || c == '\u{00a0}'
        || c == '\u{1680}' || ('\u{2000}' <= c && c <= '\u{200a}') || c == '\u{2028}' || c
        == '\u{2029}' || c == '\u{202f}' || c == '\u{205f}' || c == '\u{3000}'
}

/// `s` without the white space that it begins with.
pub open spec fn trim_front(s: Seq<char>) -> Seq<char>
    decreases s.len(),
{
    if s.len() > 0 && is_space(s[0]) {
        trim_front(s.skip(1))
    } else {
        s
    }
}

/// `s` without the white space that it ends with.
pub open spec fn trim_back(s: Seq<char>) -> Seq<char>
    decreases s.len(),
{
    if s.len() > 0 && is_space(s.last()) {
        trim_back(s.drop_last())
    } else {
        s
    }
}

/// `s` without the white space around it.
pub open spec fn trimmed(s: Seq<char>) -> Seq<char> {
    trim_back(trim_front(s))
}

fn skip_spaces(v: &[char], from: usize) -> (r: usize)
    requires
        from <= v@.len(),
    ensures
        from <= r <= v@.len(),
        v@.skip(r as int) == trim_front(v@.skip(from as int)),
        r < v@.len() ==> !is_space(v@[r as int]),
{
    let mut i: usize = from;
    while i < v.len() && is_whitespace(v[i])
        invariant
            from <= i <= v@.len(),
            trim_front(v@.skip(i as int)) == trim_front(v@.skip(from as int)),
        decreases v@.len() - i,
    {
        assert(v@.skip(i as int).skip(1) =~= v@.skip(i + 1));
        i = i + 1;
    }
    i
}

/// `s` without leading and trailing white space.
pub fn trim(s: &str) -> (r: String)
    ensures
        r@ == trimmed(s@),
{
    let v: Vec<char> = chars_of(s);
    let from: usize = skip_spaces(&v, 0);
    assert(v@.skip(0) =~= v@);
    let mut to: usize = v.len();
    assert(v@.subrange(from as int, to as int) =~= v@.skip(from as int));
    while from < to && is_whitespace(v[to - 1])
        invariant
            from <= to <= v@.len(),
            trim_back(v@.subrange(from as int, to as int)) == trimmed(s@),
        decreases to,
    {
        assert(v@.subrange(from as int, to as int).drop_last() =~= v@.subrange(
            from as int,
            to - 1,
        ));
        to = to - 1;
    }
    string_of(&v, from, to)
}

/// The length of the longest beginning of `s` without white space.
pub open spec fn word_len(s: Seq<char>) -> int
    decreases s.len(),
{
    if s.len() > 0 && !is_space(s[0]) {
        1 + word_len(s.skip(1))
    } else {
        0
    }
}

/// The maximal runs of `s` without white space, in order.
pub open spec fn words(s: Seq<char>) -> Seq<Seq<char>>
    decreases s.len(),
    via words_decreases
{
    let t = trim_front(s);
    if t.len() == 0 {
        Seq::empty()
    } else {
        seq![t.take(word_len(t))] + words(t.skip(word_len(t)))
    }
}

#[via_fn]
proof fn words_decreases(s: Seq<char>) {
    lemma_trim_front(s);
    lemma_word_len(trim_front(s));
}

/// `trim_front` takes a suffix that begins with no white space.
pub proof fn lemma_trim_front(s: Seq<char>)
    ensures
        trim_front(s).len() <= s.len(),
        trim_front(s).len() > 0 ==> !is_space(trim_front(s)[0]),
    decreases s.len(),
{
    if s.len() > 0 && is_space(s[0]) {
        lemma_trim_front(s.skip(1));
    }
}

/// `word_len` is a position of `s`, and positive where `s` begins with a word.
pub proof fn lemma_word_len(s: Seq<char>)
    ensures
        0 <= word_len(s) <= s.len(),
        s.len() > 0 && !is_space(s[0]) ==> word_len(s) > 0,
    decreases s.len(),
{
    if s.len() > 0 && !is_space(s[0]) {
        lemma_word_len(s.skip(1));
    }
}

/// `word_len` is the position of the first white space.
pub proof fn lemma_word_len_is(s: Seq<char>, n: int)
    requires
        0 <= n <= s.len(),
        forall|k: int| 0 <= k < n ==> !is_space(#[trigger] s[k]),
        n == s.len() || is_space(s[n]),
    ensures
        word_len(s) == n,
    decreases n,
{
    if n > 0 {
        assert forall|k: int| 0 <= k < n - 1 implies !is_space(#[trigger] s.skip(1)[k]) by {
            assert(s.skip(1)[k] == s[k + 1]);
        }
        assert(!is_space(s[0]));
        lemma_word_len_is(s.skip(1), n - 1);
    }
}

fn word_end(v: &[char], from: usize) -> (r: usize)
    requires
        from <= v@.len(),
    ensures
        from <= r <= v@.len(),
        r - from == word_len(v@.skip(from as int)),
{
    let mut i: usize = from;
    while i < v.len() && !is_whitespace(v[i])
        invariant
            from <= i <= v@.len(),
            word_len(v@.skip(from as int)) == i - from + word_len(v@.skip(i as int)),
        decreases v@.len() - i,
    {
        assert(v@.skip(i as int).skip(1) =~= v@.skip(i + 1));
        i = i + 1;
    }
    i
}

/// The word of `s` at position `n`, counted from zero; the empty text where
/// `s` has no such word.
pub open spec fn nth_word(s: Seq<char>, n: int) -> Seq<char> {
    if 0 <= n < words(s).len() {
        words(s)[n]
    } else {
        Seq::empty()
    }
}

/// The second word of `s`, or the empty string.
pub fn second_word(s: &str) -> (r: String)
    ensures
        r@ == nth_word(s@, 1),
{
    let v: Vec<char> = chars_of(s);
    assert(v@.skip(0) =~= v@);
    let a: usize = skip_spaces(&v, 0);
    let b: usize = word_end(&v, a);
    let c: usize = skip_spaces(&v, b);
    let d: usize = word_end(&v, c);
    let r: String = string_of(&v, c, d);
    proof {
        let t = trim_front(s@);
        lemma_word_len(t);
        if t.len() > 0 {
            let rest = t.skip(word_len(t));
            assert(rest =~= v@.skip(b as int));
            let u = trim_front(rest);
            lemma_word_len(u);
            assert(words(s@) == seq![t.take(word_len(t))] + words(rest));
            if u.len() > 0 {
                assert(words(rest) == seq![u.take(word_len(u))] + words(u.skip(word_len(u))));
                assert(r@ =~= u.take(word_len(u)));
                assert(words(rest)[0] == u.take(word_len(u)));
                assert(words(s@)[1] == words(rest)[0]);
            } else {
                assert(words(rest).len() == 0);
                assert(r@ =~= Seq::<char>::empty());
            }
        } else {
            assert(words(s@).len() == 0);
            assert(r@ =~= Seq::<char>::empty());
        }
    }
    r
}

// ---------------------------------------------------------------------------
// Numbers

/// The decimal digit of value `d`.
pub open spec fn digit_char(d: int) -> char {
    (('0' as int) + d) as char
}

/// The decimal notation of `n`, without leading zeros.
pub open spec fn decimal_text(n: nat) -> Seq<char>
    decreases n,
{
    if n < 10 {
        seq![digit_char(n as int)]
    } else {
        decimal_text(n / 10).push(digit_char((n % 10) as int))
    }
}

fn digit_of(d: u8) -> (c: char)
    requires
        d < 10,
    ensures
        c == digit_char(d as int),
{
    (48u8 + d) as char
}

/// The decimal notation of `n`.
pub fn decimal(n: u64) -> (r: String)
    ensures
        r@ == decimal_text(n as nat),
    decreases n,
{
    if n < 10 {
        let mut r: String = String::new();
        r.push(digit_of(n as u8));
        assert(r@ =~= decimal_text(n as nat));
        r
    } else {
        let mut r: String = decimal(n / 10);
        r.push(digit_of((n % 10) as u8));
        r
    }
}

/// The lower-case hexadecimal digit of value `d`.
pub open spec fn hex_digit_char(d: int) -> char {
    if d < 10 {
        (('0' as int) + d) as char
    } else {
        (('a' as int) + d - 10) as char
    }
}

/// The `len` lowest hexadecimal digits of `n`, most significant first.
pub open spec fn hex_text(n: nat, len: nat) -> Seq<char>
    decreases len,
{
    if len == 0 {
        Seq::empty()
    } else {
        hex_text(n / 16, (len - 1) as nat).push(hex_digit_char((n % 16) as int))
    }
}

fn hex_digit_of(d: u8) -> (c: char)
    requires
        d < 16,
    ensures
        c == hex_digit_char(d as int),
{
    if d < 10 {
        (48u8 + d) as char
    } else {
        (97u8 + (d - 10)) as char
    }
}

/// `n` as `len` lower-case hexadecimal digits, padded with zeros.
pub fn hex(n: u64, len: usize) -> (r: String)
    ensures
        r@ == hex_text(n as nat, len as nat),
    decreases len,
{
    if len == 0 {
        String::new()
    } else {
        let mut r: String = hex(n / 16, len - 1);
        r.push(hex_digit_of((n % 16) as u8));
        r
    }
}

// ---------------------------------------------------------------------------
// Encodings and letter case

/// `std::str::from_utf8`: the text whose UTF-8 form is `bytes`, or an error
/// where `bytes` is not well-formed UTF-8.
#[verifier::external_body]
pub(crate) fn utf8_text(bytes: &[u8]) -> (r: Option<String>)
    ensures
        match r {
            Some(s) => valid_utf8(bytes@) && s@ == decode_utf8(bytes@),
            None => !valid_utf8(bytes@),
        },
{
    match std::str::from_utf8(bytes) {
        Ok(s) => Some(s.to_owned()),
        Err(_) => None,
    }
}

/// What `str::to_uppercase` returns.
pub uninterp spec fn uppercase(s: Seq<char>) -> Seq<char>;

/// What `str::to_lowercase` returns.
pub uninterp spec fn lowercase(s: Seq<char>) -> Seq<char>;

/// `s` with the letters `a` to `z` replaced by `A` to `Z`.
pub open spec fn ascii_upper(s: Seq<char>) -> Seq<char> {
    s.map_values(|c: char| if 'a' <= c <= 'z' { ((c as int) - 32) as char } else { c })
}

/// `s` with the letters `A` to `Z` replaced by `a` to `z`.
pub open spec fn ascii_lower(s: Seq<char>) -> Seq<char> {
    s.map_values(|c: char| if 'A' <= c <= 'Z' { ((c as int) + 32) as char } else { c })
}

/// `s` with the letters `A` to `Z` replaced by `a` to `z`.
pub fn to_ascii_lower(s: &str) -> (r: String)
    ensures
        r@ == ascii_lower(s@),
{
    let v: Vec<char> = chars_of(s);
    let mut out: String = String::new();
    let mut i: usize = 0;
    while i < v.len()
        invariant
            v@ == s@,
            i <= v@.len(),
            out@.len() == i,
            forall|k: int| 0 <= k < i ==> out@[k] == ascii_lower(s@)[k],
        decreases v@.len() - i,
    {
        let c: char = v[i];
        if 'A' <= c && c <= 'Z' {
            out.push((c as u8 + 32) as char);
        } else {
            out.push(c);
        }
        i = i + 1;
    }
    assert(out@ =~= ascii_lower(s@));
    out
}

/// `str::to_uppercase`: the Unicode upper-case form, which on ASCII text only
/// replaces the letters `a` to `z`.
#[verifier::external_body]
pub(crate) fn to_uppercase(s: &str) -> (r: String)
    ensures
        r@ == uppercase(s@),
        is_ascii_chars(s@) ==> r@ == ascii_upper(s@),
{
    s.to_uppercase()
}

/// `str::to_lowercase`: the Unicode lower-case form, which on ASCII text only
/// replaces the letters `A` to `Z`.
#[verifier::external_body]
pub(crate) fn to_lowercase(s: &str) -> (r: String)
    ensures
        r@ == lowercase(s@),
        is_ascii_chars(s@) ==> r@ == ascii_lower(s@),
{
    s.to_lowercase()
}

/// `n` has at most `len` hexadecimal digits.
pub open spec fn fits_hex(n: nat, len: nat) -> bool
    decreases len,
{
    if len == 0 {
        n == 0
    } else {
        fits_hex(n / 16, (len - 1) as nat)
    }
}

/// Numbers of at most `len` digits with the same hexadecimal notation are
/// equal.
pub proof fn hex_text_is_injective(a: nat, b: nat, len: nat)
    requires
        fits_hex(a, len),
        fits_hex(b, len),
        hex_text(a, len) == hex_text(b, len),
    ensures
        a == b,
    decreases len,
{
    if len > 0 {
        let m = (len - 1) as nat;
        let x = hex_text(a, len);
        let y = hex_text(b, len);
        assert(x.drop_last() =~= hex_text(a / 16, m));
        assert(y.drop_last() =~= hex_text(b / 16, m));
        assert(x.last() == hex_digit_char((a % 16) as int));
        assert(y.last() == hex_digit_char((b % 16) as int));
        hex_text_is_injective(a / 16, b / 16, m);
    }
}

// ---------------------------------------------------------------------------
// Laws

/// The texts of a list are those of its strings, one for one.
pub proof fn texts_are_those_of_the_strings(v: Seq<String>)
    ensures
        texts(v).len() == v.len(),
        forall|i: int| 0 <= i < v.len() ==> #[trigger] texts(v)[i] == v[i]@,
{
}

/// A text occurs in every other that is made of it with something before and
/// behind, and in no others.
pub proof fn occurrences_are_parts(
    needle: Seq<char>,
    before: Seq<char>,
    after: Seq<char>,
    hay: Seq<char>,
) -> (at: int)
    ensures
        occurs(needle, before + needle + after),
        occurs(needle, hay) ==> 0 <= at <= hay.len() - needle.len() && hay == hay.take(at) + needle
            + hay.skip(at + needle.len()),
{
    let whole = before + needle + after;
    let start = before.len() as int;
    assert(whole.subrange(start, start + needle.len()) =~= needle);
    assert(occurs_at(needle, whole, start));
    if occurs(needle, hay) {
        let at = choose|i: int| occurs_at(needle, hay, i);
        let found = hay.subrange(at, at + needle.len());
        assert(hay =~= hay.take(at) + found + hay.skip(at + needle.len()));
        at
    } else {
        0
    }
}

/// The two parts around a character are those around its first occurrence.
pub proof fn splitting_once_takes_the_first(before: Seq<char>, c: char, after: Seq<char>)
    requires
        !before.contains(c),
    ensures
        split_once_at(before + seq![c] + after, c) == Some((before, after)),
        split_once_at(before, c) is None,
{
    let s = before + seq![c] + after;
    let n = before.len() as int;
    assert forall|k: int| 0 <= k < n implies s[k] != c by {
        assert(before.contains(before[k]));
    }
    lemma_find_char_is(s, c, n);
    assert(s.take(n) =~= before);
    assert(s.skip(n + 1) =~= after);
    assert forall|k: int| 0 <= k < n implies before[k] != c by {
        assert(before.contains(before[k]));
    }
    lemma_find_char_is(before, c, n);
}

/// Joined parts have the separator between each two of them, and nothing else.
pub proof fn joining_puts_the_separator_between(
    parts: Seq<Seq<char>>,
    last: Seq<char>,
    sep: Seq<char>,
)
    ensures
        joined(Seq::<Seq<char>>::empty(), sep) == Seq::<char>::empty(),
        joined(seq![last], sep) == last,
        parts.len() > 0 ==> joined(parts.push(last), sep) == joined(parts, sep) + sep + last,
{
    assert(parts.push(last).drop_last() =~= parts);
}

/// The first line ends before the first line feed, or before the carriage
/// return in front of that.
pub proof fn first_lines_end_at_a_line_feed(line: Seq<char>, tail: Seq<char>)
    requires
        !line.contains('\n'),
    ensures
        first_line_of(line) == line,
        first_line_of(line + seq!['\r', '\n'] + tail) == line,
        line.len() == 0 || line.last() != '\r' ==> first_line_of(line + seq!['\n'] + tail) == line,
{
    let n = line.len() as int;
    assert forall|k: int| 0 <= k < n implies line[k] != '\n' by {
        assert(line.contains(line[k]));
    }
    lemma_find_char_is(line, '\n', n);
    assert(line.take(n) =~= line);
    let dos = line + seq!['\r', '\n'] + tail;
    assert forall|k: int| 0 <= k < n + 1 implies dos[k] != '\n' by {
        if k < n {
            assert(dos[k] == line[k]);
        }
    }
    lemma_find_char_is(dos, '\n', n + 1);
    assert(dos.take(n) =~= line);
    let unix = line + seq!['\n'] + tail;
    assert forall|k: int| 0 <= k < n implies unix[k] != '\n' by {
        assert(unix[k] == line[k]);
    }
    lemma_find_char_is(unix, '\n', n);
    assert(unix.take(n) =~= line);
    if n > 0 {
        assert(unix[n - 1] == line.last());
    }
}

/// White space, by code: the controls from tab to carriage return, the blank,
/// and the blanks and line ends of Unicode. No letter or digit is among them.
pub proof fn white_space_by_code(c: char)
    ensures
        is_space(c) <==> (9 <= c as u32 <= 13 || c as u32 == 32 || c as u32 == 0x85 || c as u32
            == 0xa0 || c as u32 == 0x1680 || 0x2000 <= c as u32 <= 0x200a || c as u32 == 0x2028
            || c as u32 == 0x2029 || c as u32 == 0x202f || c as u32 == 0x205f || c as u32
            == 0x3000),
{
}

proof fn lemma_trim_front_all(before: Seq<char>, s: Seq<char>)
    requires
        forall|i: int| 0 <= i < before.len() ==> is_space(#[trigger] before[i]),
    ensures
        trim_front(before + s) == trim_front(s),
    decreases before.len(),
{
    if before.len() == 0 {
        assert(before + s =~= s);
    } else {
        let rest = before.skip(1);
        assert((before + s)[0] == before[0]);
        assert((before + s).skip(1) =~= rest + s);
        assert forall|i: int| 0 <= i < rest.len() implies is_space(#[trigger] rest[i]) by {
            assert(rest[i] == before[i + 1]);
        }
        lemma_trim_front_all(rest, s);
    }
}

proof fn lemma_trim_back_all(s: Seq<char>, after: Seq<char>)
    requires
        forall|i: int| 0 <= i < after.len() ==> is_space(#[trigger] after[i]),
    ensures
        trim_back(s + after) == trim_back(s),
    decreases after.len(),
{
    if after.len() == 0 {
        assert(s + after =~= s);
    } else {
        let rest = after.drop_last();
        assert((s + after).last() == after[after.len() - 1]);
        assert((s + after).drop_last() =~= s + rest);
        assert forall|i: int| 0 <= i < rest.len() implies is_space(#[trigger] rest[i]) by {
            assert(rest[i] == after[i]);
        }
        lemma_trim_back_all(s, rest);
    }
}

/// Trimming takes away the white space around a text, and nothing else.
pub proof fn trimming_takes_white_space_only(before: Seq<char>, s: Seq<char>, after: Seq<char>)
    requires
        forall|i: int| 0 <= i < before.len() ==> is_space(#[trigger] before[i]),
        forall|i: int| 0 <= i < after.len() ==> is_space(#[trigger] after[i]),
        s.len() > 0 ==> !is_space(s[0]) && !is_space(s.last()),
    ensures
        trimmed(before + s + after) == s,
{
    assert(before + s + after =~= before + (s + after));
    lemma_trim_front_all(before, s + after);
    if s.len() > 0 {
        assert((s + after)[0] == s[0]);
        lemma_trim_back_all(s, after);
    } else {
        assert(s + after =~= after);
        lemma_trim_front_all(after, s);
        assert(after + s =~= after);
    }
}

/// The number that decimal digits denote.
pub open spec fn decimal_number(digits: Seq<char>) -> int
    decreases digits.len(),
{
    if digits.len() == 0 {
        0
    } else {
        10 * decimal_number(digits.drop_last()) + (digits.last() as int - 48)
    }
}

/// The decimal notation consists of digits, begins with no needless zero, and
/// denotes the number.
pub proof fn decimal_notation_denotes_the_number(n: nat)
    ensures
        decimal_number(decimal_text(n)) == n,
        forall|i: int| 0 <= i < decimal_text(n).len() ==> '0' <= #[trigger] decimal_text(n)[i] <= '9',
        decimal_text(n).len() > 0,
        decimal_text(n)[0] == '0' ==> n == 0 && decimal_text(n).len() == 1,
    decreases n,
{
    let s = decimal_text(n);
    reveal_with_fuel(decimal_number, 2);
    if n < 10 {
        assert(s.drop_last() =~= Seq::<char>::empty());
    } else {
        let front = decimal_text(n / 10);
        decimal_notation_denotes_the_number(n / 10);
        assert(s.drop_last() =~= front);
        assert forall|i: int| 0 <= i < s.len() implies '0' <= #[trigger] s[i] <= '9' by {
            if i < front.len() {
                assert(s[i] == front[i]);
            }
        }
        assert(s[0] == front[0]);
    }
}

/// The number that lower-case hexadecimal digits denote.
pub open spec fn hexadecimal_number(digits: Seq<char>) -> int
    decreases digits.len(),
{
    if digits.len() == 0 {
        0
    } else {
        16 * hexadecimal_number(digits.drop_last()) + (if digits.last() <= '9' {
            digits.last() as int - 48
        } else {
            digits.last() as int - 87
        })
    }
}

/// The hexadecimal notation has the given number of lower-case digits, and
/// denotes a number of at most that many.
pub proof fn hexadecimal_notation_denotes_the_number(n: nat, len: nat)
    ensures
        hex_text(n, len).len() == len,
        forall|i: int|
            0 <= i < len ==> ('0' <= #[trigger] hex_text(n, len)[i] <= '9' || 'a' <= hex_text(
                n,
                len,
            )[i] <= 'f'),
        fits_hex(n, len) ==> hexadecimal_number(hex_text(n, len)) == n,
    decreases len,
{
    if len > 0 {
        let m = (len - 1) as nat;
        let s = hex_text(n, len);
        hexadecimal_notation_denotes_the_number(n / 16, m);
        assert(s.drop_last() =~= hex_text(n / 16, m));
        assert forall|i: int| 0 <= i < len implies ('0' <= #[trigger] s[i] <= '9' || 'a' <= s[i]
            <= 'f') by {
            if i < m {
                assert(s[i] == hex_text(n / 16, m)[i]);
            }
        }
    }
}

/// Changing the letter case of ASCII text moves the letters by 32, and leaves
/// all else.
pub proof fn letter_case_moves_letters_only(s: Seq<char>, i: int)
    requires
        0 <= i < s.len(),
    ensures
        ascii_lower(s).len() == s.len(),
        ascii_upper(s).len() == s.len(),
        65 <= s[i] as int <= 90 ==> ascii_lower(s)[i] as int == s[i] as int + 32,
        97 <= s[i] as int <= 122 ==> ascii_upper(s)[i] as int == s[i] as int - 32,
        !(65 <= s[i] as int <= 90) ==> ascii_lower(s)[i] == s[i],
        !(97 <= s[i] as int <= 122) ==> ascii_upper(s)[i] == s[i],
{
}

/// What stands before a separator and what stands behind it are split each for
/// itself; a text without the separator is one piece.
pub proof fn splitting_goes_part_by_part(a: Seq<char>, sep: char, b: Seq<char>)
    ensures
        split_on(a + seq![sep] + b, sep) == split_on(a, sep) + split_on(b, sep),
        !a.contains(sep) ==> split_on(a, sep) == seq![a],
    decreases a.len(),
{
    let s = a + seq![sep] + b;
    let n = find_char(a, sep);
    lemma_find_char(a, sep);
    assert forall|k: int| 0 <= k < n implies s[k] != sep by {
        assert(s[k] == a[k]);
    }
    if n < a.len() {
        assert(s[n] == a[n]);
        assert(a.contains(a[n]));
        lemma_find_char_is(s, sep, n);
        let rest = a.skip(n + 1);
        assert(s.take(n) =~= a.take(n));
        assert(s.skip(n + 1) =~= rest + seq![sep] + b);
        splitting_goes_part_by_part(rest, sep, b);
        assert(split_on(s, sep) =~= split_on(a, sep) + split_on(b, sep));
    } else {
        assert(s[n] == sep);
        lemma_find_char_is(s, sep, n);
        assert(s.take(n) =~= a);
        assert(s.skip(n + 1) =~= b);
        assert(split_on(s, sep) =~= split_on(a, sep) + split_on(b, sep));
    }
}

} // verus!
