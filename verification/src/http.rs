//! The HTTP requests that the plugin asks for, and how it reads the replies.

use crate::encoding;
use crate::error::GoogleError;
use crate::json::{Json, JsonModel};
use crate::text;
use crate::text::{
    chars_of, ends_with, starts_with, str_eq, string_of, to_ascii_lower, to_uppercase,
};
use vstd::prelude::*;
use vstd::utf8::*;

verus! {

// ---------------------------------------------------------------------------
// Statuses

/// A three-digit status code.
pub open spec fn valid_status(status: u16) -> bool {
    100 <= status <= 999
}

/// A status that reports success.
pub open spec fn success(status: u16) -> bool {
    200 <= status <= 299
}

/// Whether the status reports success.
pub fn is_success(status: u16) -> (r: bool)
    ensures
        r == success(status),
{
    200 <= status && status <= 299
}

/// How a status is shown.
pub uninterp spec fn status_text(status: u16) -> Seq<char>;

/// `reqwest::StatusCode::from_u16` and the `Display` of the code: the number
/// and its canonical reason. On a three-digit code the conversion succeeds.
#[verifier::external_body]
pub(crate) fn status_line(status: u16) -> (r: String)
    requires
        valid_status(status),
    ensures
        r@ == status_text(status),
{
    reqwest::StatusCode::from_u16(status).map(|s| s.to_string()).unwrap_or_default()
}

// ---------------------------------------------------------------------------
// Forms

/// A form under construction.
pub struct Form {
    list: Vec<(String, String)>,
}

impl View for Form {
    type V = Seq<(Seq<char>, Seq<char>)>;

    closed spec fn view(&self) -> Seq<(Seq<char>, Seq<char>)> {
        encoding::pair_texts(self.list@)
    }
}

impl Form {
    /// The empty form.
    pub fn new() -> (r: Form)
        ensures
            r@ == Seq::<(Seq<char>, Seq<char>)>::empty(),
    {
        let r: Form = Form { list: Vec::new() };
        assert(r@ =~= Seq::<(Seq<char>, Seq<char>)>::empty());
        r
    }

    /// The form with one more field at the end.
    pub fn with(self, name: &str, value: &str) -> (r: Form)
        ensures
            r@ == self@.push((name@, value@)),
    {
        let mut list: Vec<(String, String)> = self.list;
        list.push((name.to_owned(), value.to_owned()));
        let r: Form = Form { list };
        assert(r@ =~= self@.push((name@, value@)));
        r
    }

    /// The fields, in order.
    pub fn into_pairs(self) -> (r: Vec<(String, String)>)
        ensures
            encoding::pair_texts(r@) == self@,
    {
        self.list
    }

    /// The form in the `application/x-www-form-urlencoded` encoding.
    pub fn encode(&self) -> (r: String)
        ensures
            r@ == encoding::form_encoded(self@),
    {
        encoding::form_urlencode(&self.list)
    }
}

/// A form to be posted, and how a failure to do so is reported: where it
/// cannot be sent, and where the body of the reply is not JSON.
pub struct FormPost {
    pub url: String,
    pub form: Vec<(String, String)>,
    pub send_context: String,
    pub body_context: String,
}

/// The model of a form post.
#[verifier::ext_equal]
pub struct FormPostModel {
    pub url: Seq<char>,
    pub form: Seq<(Seq<char>, Seq<char>)>,
    pub send_context: Seq<char>,
    pub body_context: Seq<char>,
}

impl View for FormPost {
    type V = FormPostModel;

    open spec fn view(&self) -> FormPostModel {
        FormPostModel {
            url: self.url@,
            form: encoding::pair_texts(self.form@),
            send_context: self.send_context@,
            body_context: self.body_context@,
        }
    }
}

impl FormPost {
    /// A post of `form` to `url`.
    pub fn new(url: &str, form: Form, send_context: &str, body_context: &str) -> (r: FormPost)
        ensures
            r@ == (FormPostModel {
                url: url@,
                form: form@,
                send_context: send_context@,
                body_context: body_context@,
            }),
    {
        FormPost {
            url: url.to_owned(),
            form: form.into_pairs(),
            send_context: send_context.to_owned(),
            body_context: body_context.to_owned(),
        }
    }
}

/// The explanation that an error reply carries.
pub open spec fn error_detail_text(body: JsonModel) -> Seq<char> {
    match body.field_text("error_description"@) {
        Some(d) => d,
        None => match body.field_text("error"@) {
            Some(e) => e,
            None => "(no error body)"@,
        },
    }
}

/// The explanation that an error reply carries.
pub fn error_detail(body: &Json) -> (r: String)
    ensures
        r@ == error_detail_text(body@),
{
    match body.field_str("error_description") {
        Some(d) => d,
        None => match body.field_str("error") {
            Some(e) => e,
            None => "(no error body)".to_owned(),
        },
    }
}

// ---------------------------------------------------------------------------
// Methods

/// The methods that `google_call` offers.
#[derive(Debug, Clone, Copy, PartialEq, Eq, Structural)]
pub enum HttpMethod {
    Get,
    Post,
    Put,
    Patch,
    Delete,
}

impl HttpMethod {
    /// The name of the method.
    pub open spec fn name(self) -> Seq<char> {
        match self {
            HttpMethod::Get => "GET"@,
            HttpMethod::Post => "POST"@,
            HttpMethod::Put => "PUT"@,
            HttpMethod::Patch => "PATCH"@,
            HttpMethod::Delete => "DELETE"@,
        }
    }

    /// The name of the method.
    pub fn as_str(&self) -> (r: &'static str)
        ensures
            r@ == self.name(),
    {
        match self {
            HttpMethod::Get => "GET",
            HttpMethod::Post => "POST",
            HttpMethod::Put => "PUT",
            HttpMethod::Patch => "PATCH",
            HttpMethod::Delete => "DELETE",
        }
    }
}

/// A name that belongs to a method.
pub open spec fn offered_method(name: Seq<char>) -> bool {
    exists|m: HttpMethod| name == #[trigger] m.name()
}

/// The method of the given name, in upper case.
pub fn method_named(name: &str) -> (r: Option<HttpMethod>)
    ensures
        match r {
            Some(m) => m.name() == name@,
            None => !offered_method(name@),
        },
{
    if str_eq(name, "GET") {
        Some(HttpMethod::Get)
    } else if str_eq(name, "POST") {
        Some(HttpMethod::Post)
    } else if str_eq(name, "PUT") {
        Some(HttpMethod::Put)
    } else if str_eq(name, "PATCH") {
        Some(HttpMethod::Patch)
    } else if str_eq(name, "DELETE") {
        Some(HttpMethod::Delete)
    } else {
        assert forall|m: HttpMethod| name@ != #[trigger] m.name() by {
            match m {
                HttpMethod::Get => {},
                HttpMethod::Post => {},
                HttpMethod::Put => {},
                HttpMethod::Patch => {},
                HttpMethod::Delete => {},
            }
        }
        None
    }
}

/// The method that a caller names, in any letter case.
pub fn request_method(method: &str) -> (r: Result<HttpMethod, GoogleError>)
    ensures
        match r {
            Ok(m) => m.name() == text::uppercase(method@),
            Err(e) => {
                &&& !offered_method(text::uppercase(method@))
                &&& e matches GoogleError::UnsupportedMethod(name)
                &&& name@ == text::uppercase(method@)
            },
        },
        is_ascii_chars(method@) ==> text::uppercase(method@) == text::ascii_upper(method@),
{
    let upper: String = to_uppercase(method);
    match method_named(upper.as_str()) {
        Some(m) => Ok(m),
        None => Err(GoogleError::UnsupportedMethod(upper)),
    }
}

// ---------------------------------------------------------------------------
// Hosts

/// The characters that end the authority of a URL.
pub open spec fn ends_authority(c: char) -> bool {
    c == '/' || c == '\\' || c == '?' || c == '#'
}

/// The length of the longest beginning of `s` that lies in the authority.
pub open spec fn authority_len(s: Seq<char>) -> int
    decreases s.len(),
{
    if s.len() > 0 && !ends_authority(s[0]) {
        1 + authority_len(s.skip(1))
    } else {
        0
    }
}

/// What follows the last `@` of an authority.
pub open spec fn without_userinfo(s: Seq<char>) -> Seq<char>
    decreases s.len(),
{
    let n = text::find_char(s, '@');
    if 0 <= n < s.len() {
        without_userinfo(s.skip(n + 1))
    } else {
        s
    }
}

/// The host that a URL behind its `https://` names: its authority, without
/// user information and port.
pub open spec fn host_of(rest: Seq<char>) -> Seq<char> {
    let host_port = without_userinfo(rest.take(authority_len(rest)));
    host_port.take(text::find_char(host_port, ':'))
}

/// A URL of the Google APIs: `https`, and a host below `googleapis.com`, in
/// whatever letter case the host is written.
pub open spec fn google_api_url(url: Seq<char>) -> bool {
    let scheme = "https://"@;
    let domain = ".googleapis.com"@;
    let host = text::ascii_lower(host_of(url.skip(scheme.len() as int)));
    scheme.is_prefix_of(url) && domain.is_suffix_of(host) && host.len() > domain.len()
}

fn authority_end(v: &[char], from: usize) -> (r: usize)
    requires
        from <= v@.len(),
    ensures
        from <= r <= v@.len(),
        r - from == authority_len(v@.skip(from as int)),
{
    let mut i: usize = from;
    while i < v.len() && !(v[i] == '/' || v[i] == '\\' || v[i] == '?' || v[i] == '#')
        invariant
            from <= i <= v@.len(),
            authority_len(v@.skip(from as int)) == i - from + authority_len(v@.skip(i as int)),
        decreases v@.len() - i,
    {
        assert(v@.skip(i as int).skip(1) =~= v@.skip(i + 1));
        i = i + 1;
    }
    i
}

fn after_userinfo(v: &[char], from: usize, to: usize) -> (r: usize)
    requires
        from <= to <= v@.len(),
    ensures
        from <= r <= to,
        v@.subrange(r as int, to as int) == without_userinfo(v@.subrange(from as int, to as int)),
{
    let mut start: usize = from;
    let mut i: usize = from;
    while i < to
        invariant
            from <= start <= i <= to <= v@.len(),
            forall|k: int| start <= k < i ==> v@[k] != '@',
            without_userinfo(v@.subrange(from as int, to as int)) == without_userinfo(
                v@.subrange(start as int, to as int),
            ),
        decreases to - i,
    {
        if v[i] == '@' {
            let ghost rest = v@.subrange(start as int, to as int);
            proof {
                text::lemma_find_char_is(rest, '@', i - start);
                assert(rest.skip(i - start + 1) =~= v@.subrange(i + 1, to as int));
            }
            start = i + 1;
        }
        i = i + 1;
    }
    proof {
        let rest = v@.subrange(start as int, to as int);
        text::lemma_find_char_is(rest, '@', rest.len() as int);
    }
    start
}

fn port_colon(v: &[char], from: usize, to: usize) -> (r: usize)
    requires
        from <= to <= v@.len(),
    ensures
        from <= r <= to,
        r - from == text::find_char(v@.subrange(from as int, to as int), ':'),
{
    let mut i: usize = from;
    while i < to && v[i] != ':'
        invariant
            from <= i <= to <= v@.len(),
            forall|k: int| from <= k < i ==> v@[k] != ':',
        decreases to - i,
    {
        i = i + 1;
    }
    proof {
        text::lemma_find_char_is(v@.subrange(from as int, to as int), ':', i - from);
    }
    i
}

/// Whether `url` is an `https` URL of a host below `googleapis.com`.
pub fn is_google_api_url(url: &str) -> (r: bool)
    ensures
        r == google_api_url(url@),
{
    if !starts_with(url, "https://") {
        return false;
    }
    proof {
        reveal_strlit("https://");
        reveal_strlit(".googleapis.com");
    }
    let v: Vec<char> = chars_of(url);
    let end: usize = authority_end(&v, 8);
    let start: usize = after_userinfo(&v, 8, end);
    let colon: usize = port_colon(&v, start, end);
    let host: String = string_of(&v, start, colon);
    proof {
        let rest = url@.skip(8);
        assert(rest.take(authority_len(rest)) =~= v@.subrange(8, end as int));
        let host_port = v@.subrange(start as int, end as int);
        assert(host_port.take(colon - start) =~= host@);
        assert(host@ == host_of(rest));
    }
    let lower: String = to_ascii_lower(host.as_str());
    let lower_chars: Vec<char> = chars_of(lower.as_str());
    ends_with(lower.as_str(), ".googleapis.com") && lower_chars.len() > 15
}

/// Every URL of the Google APIs begins with `https://` and holds the name of
/// the domain, in some letter case.
pub proof fn google_api_urls_name_the_domain(url: Seq<char>)
    requires
        google_api_url(url),
    ensures
        "https://"@.is_prefix_of(url),
        text::occurs("googleapis.com"@, text::ascii_lower(url)),
{
    reveal_strlit("https://");
    reveal_strlit(".googleapis.com");
    reveal_strlit("googleapis.com");
    let rest = url.skip(8);
    lemma_authority_len(rest);
    let authority = rest.take(authority_len(rest));
    let host_port = without_userinfo(authority);
    let a = lemma_without_userinfo(authority);
    text::lemma_find_char(host_port, ':');
    let host = host_of(rest);
    let at = 8 + a + host.len() - 14;
    assert(host =~= url.subrange(8 + a, 8 + a + host.len()));
    let lower = text::ascii_lower(url);
    let lower_host = text::ascii_lower(host);
    assert(lower.subrange(at, at + 14) =~= "googleapis.com"@) by {
        let domain = ".googleapis.com"@;
        assert forall|k: int| 0 <= k < 14 implies lower.subrange(at, at + 14)[k]
            == "googleapis.com"@[k] by {
            assert(url[at + k] == host[host.len() - 14 + k]);
            assert(lower[at + k] == lower_host[host.len() - 14 + k]);
            assert(lower_host[host.len() - 14 + k] == domain[k + 1]);
        }
    }
    assert(text::occurs_at("googleapis.com"@, lower, at));
}

proof fn lemma_authority_len(s: Seq<char>)
    ensures
        0 <= authority_len(s) <= s.len(),
    decreases s.len(),
{
    if s.len() > 0 && !ends_authority(s[0]) {
        lemma_authority_len(s.skip(1));
    }
}

proof fn lemma_without_userinfo(s: Seq<char>) -> (at: int)
    ensures
        0 <= at <= s.len(),
        without_userinfo(s) == s.skip(at),
    decreases s.len(),
{
    text::lemma_find_char(s, '@');
    let n = text::find_char(s, '@');
    if n < s.len() {
        let at = lemma_without_userinfo(s.skip(n + 1));
        assert(s.skip(n + 1).skip(at) =~= s.skip(n + 1 + at));
        n + 1 + at
    } else {
        assert(s.skip(0) =~= s);
        0
    }
}

/// Whether a URL is one of the Google APIs does not depend on the letter case of
/// what follows its scheme.
pub proof fn hosts_have_no_letter_case(rest: Seq<char>)
    ensures
        google_api_url("https://"@ + rest) == google_api_url("https://"@ + text::ascii_lower(rest)),
{
    let scheme = "https://"@;
    let lower = text::ascii_lower(rest);
    assert((scheme + rest).skip(scheme.len() as int) =~= rest);
    assert((scheme + lower).skip(scheme.len() as int) =~= lower);
    assert((scheme + rest).subrange(0, scheme.len() as int) =~= scheme);
    assert((scheme + lower).subrange(0, scheme.len() as int) =~= scheme);
    lemma_authority_len(rest);
    lemma_authority_len_lower(rest);
    let authority = rest.take(authority_len(rest));
    assert(lower.take(authority_len(lower)) =~= text::ascii_lower(authority));
    lemma_without_userinfo_lower(authority);
    let host_port = without_userinfo(authority);
    lemma_find_lower(host_port, ':');
    text::lemma_find_char(host_port, ':');
    assert(host_of(lower) =~= text::ascii_lower(host_of(rest)));
    assert(text::ascii_lower(host_of(lower)) =~= text::ascii_lower(host_of(rest)));
}

proof fn lemma_find_lower(s: Seq<char>, c: char)
    requires
        c == '@' || c == ':',
    ensures
        text::find_char(text::ascii_lower(s), c) == text::find_char(s, c),
{
    let n = text::find_char(s, c);
    text::lemma_find_char(s, c);
    let lower = text::ascii_lower(s);
    assert forall|k: int| 0 <= k < n implies lower[k] != c by {
        assert(s[k] != c);
    }
    text::lemma_find_char_is(lower, c, n);
}

proof fn lemma_authority_len_lower(s: Seq<char>)
    ensures
        authority_len(text::ascii_lower(s)) == authority_len(s),
    decreases s.len(),
{
    let lower = text::ascii_lower(s);
    if s.len() > 0 {
        assert(ends_authority(lower[0]) == ends_authority(s[0]));
        assert(lower.skip(1) =~= text::ascii_lower(s.skip(1)));
        lemma_authority_len_lower(s.skip(1));
    }
}

proof fn lemma_without_userinfo_lower(s: Seq<char>)
    ensures
        without_userinfo(text::ascii_lower(s)) == text::ascii_lower(without_userinfo(s)),
    decreases s.len(),
{
    let lower = text::ascii_lower(s);
    let n = text::find_char(s, '@');
    text::lemma_find_char(s, '@');
    lemma_find_lower(s, '@');
    if n < s.len() {
        assert(lower.skip(n + 1) =~= text::ascii_lower(s.skip(n + 1)));
        lemma_without_userinfo_lower(s.skip(n + 1));
    }
}

/// A status has three digits; those that begin with a two report success, and no
/// others.
pub proof fn statuses_of_success(status: u16)
    ensures
        success(status) <==> status / 100 == 2,
        valid_status(status) <==> 1 <= status / 100 <= 9,
{
}

/// The methods are `GET`, `POST`, `PUT`, `PATCH` and `DELETE`, each under its
/// own name.
pub proof fn five_methods_are_offered(name: Seq<char>)
    ensures
        offered_method(name) <==> (name == "GET"@ || name == "POST"@ || name == "PUT"@ || name
            == "PATCH"@ || name == "DELETE"@),
        HttpMethod::Get.name() == "GET"@,
        HttpMethod::Post.name() == "POST"@,
        HttpMethod::Put.name() == "PUT"@,
        HttpMethod::Patch.name() == "PATCH"@,
        HttpMethod::Delete.name() == "DELETE"@,
{
    assert(HttpMethod::Get.name() == "GET"@);
    assert(HttpMethod::Post.name() == "POST"@);
    assert(HttpMethod::Put.name() == "PUT"@);
    assert(HttpMethod::Patch.name() == "PATCH"@);
    assert(HttpMethod::Delete.name() == "DELETE"@);
    if offered_method(name) {
        let m = choose|m: HttpMethod| name == #[trigger] m.name();
        match m {
            HttpMethod::Get => {},
            HttpMethod::Post => {},
            HttpMethod::Put => {},
            HttpMethod::Patch => {},
            HttpMethod::Delete => {},
        }
    }
}

/// An error reply is explained by its description, else by its error code.
pub proof fn errors_are_explained(body: JsonModel)
    ensures
        match (body.field("error_description"@), body.field("error"@)) {
            (Some(JsonModel::Str(d)), _) => error_detail_text(body) == d,
            (_, Some(JsonModel::Str(e))) => error_detail_text(body) == e,
            _ => error_detail_text(body) == "(no error body)"@,
        },
{
}

/// The text holds none of the characters that end an authority.
pub open spec fn within_authority(s: Seq<char>) -> bool {
    !s.contains('/') && !s.contains('\\') && !s.contains('?') && !s.contains('#')
}

/// The text begins with a character that ends an authority, or is empty.
pub open spec fn behind_authority(s: Seq<char>) -> bool {
    s.len() == 0 || s[0] == '/' || s[0] == '\\' || s[0] == '?' || s[0] == '#'
}

/// The text is a host: part of an authority, without user information or port.
pub open spec fn bare_host(s: Seq<char>) -> bool {
    within_authority(s) && !s.contains('@') && !s.contains(':')
}

proof fn lemma_authority_is(authority: Seq<char>, tail: Seq<char>)
    requires
        within_authority(authority),
        behind_authority(tail),
    ensures
        authority_len(authority + tail) == authority.len(),
    decreases authority.len(),
{
    let s = authority + tail;
    if authority.len() == 0 {
        assert(s =~= tail);
    } else {
        assert(authority.contains(authority[0]));
        assert(s[0] == authority[0]);
        let rest = authority.skip(1);
        assert(s.skip(1) =~= rest + tail);
        assert forall|c: char| rest.contains(c) implies authority.contains(c) by {
            let i = choose|i: int| 0 <= i < rest.len() && rest[i] == c;
            assert(authority[i + 1] == c);
        }
        lemma_authority_is(rest, tail);
    }
}

proof fn lemma_userinfo_is(user: Seq<char>, host_port: Seq<char>)
    requires
        !host_port.contains('@'),
    ensures
        without_userinfo(host_port) == host_port,
        without_userinfo(user + seq!['@'] + host_port) == host_port,
    decreases user.len(),
{
    text::lemma_find_char(host_port, '@');
    let k = text::find_char(host_port, '@');
    if k < host_port.len() {
        assert(host_port.contains(host_port[k]));
    }
    let s = user + seq!['@'] + host_port;
    let n = text::find_char(user, '@');
    text::lemma_find_char(user, '@');
    assert forall|k: int| 0 <= k < n implies s[k] != '@' by {
        assert(s[k] == user[k]);
    }
    if n < user.len() {
        assert(s[n] == user[n]);
        text::lemma_find_char_is(s, '@', n);
        assert(s.skip(n + 1) =~= user.skip(n + 1) + seq!['@'] + host_port);
        lemma_userinfo_is(user.skip(n + 1), host_port);
    } else {
        assert(s[n] == '@');
        text::lemma_find_char_is(s, '@', n);
        assert(s.skip(n + 1) =~= host_port);
    }
}

proof fn lemma_host_of(authority: Seq<char>, host_port: Seq<char>, host: Seq<char>, tail: Seq<char>)
    requires
        within_authority(authority),
        behind_authority(tail),
        without_userinfo(authority) == host_port,
        bare_host(host),
        host.is_prefix_of(host_port),
        host_port.len() > host.len() ==> host_port[host.len() as int] == ':',
    ensures
        host_of(authority + tail) == host,
{
    lemma_authority_is(authority, tail);
    assert((authority + tail).take(authority.len() as int) =~= authority);
    let n = host.len() as int;
    assert forall|k: int| 0 <= k < n implies host_port[k] != ':' by {
        assert(host[k] == host_port.subrange(0, n)[k]);
        assert(host.contains(host[k]));
    }
    text::lemma_find_char_is(host_port, ':', n);
    assert(host_port.take(n) =~= host);
}

/// A URL is one of the Google APIs exactly where it begins with `https://` and
/// its host, in lower case, is a name with `.googleapis.com` behind it. A path,
/// a query or a fragment does not matter.
pub proof fn hosts_decide(url: Seq<char>, host: Seq<char>, tail: Seq<char>)
    requires
        bare_host(host),
        behind_authority(tail),
    ensures
        !"https://"@.is_prefix_of(url) ==> !google_api_url(url),
        google_api_url("https://"@ + host + tail) <==> ".googleapis.com"@.is_suffix_of(
            text::ascii_lower(host),
        ) && host.len() > 15,
{
    reveal_strlit("https://");
    reveal_strlit(".googleapis.com");
    let whole = "https://"@ + host + tail;
    assert("https://"@ =~= whole.subrange(0, 8));
    assert(whole.skip(8) =~= host + tail);
    lemma_userinfo_is(Seq::empty(), host);
    assert(host =~= host.subrange(0, host.len() as int));
    lemma_host_of(host, host, host, tail);
}

/// User information before the host and a port behind it do not decide whether
/// a URL is one of the Google APIs, whatever they read like.
pub proof fn only_the_host_decides(
    user: Seq<char>,
    host: Seq<char>,
    port: Seq<char>,
    tail: Seq<char>,
)
    requires
        bare_host(host),
        within_authority(user),
        within_authority(port),
        !port.contains('@'),
        behind_authority(tail),
    ensures
        ({
            let plain = google_api_url("https://"@ + host + tail);
            let with_port = host + seq![':'] + port;
            &&& google_api_url("https://"@ + with_port + tail) == plain
            &&& google_api_url("https://"@ + (user + seq!['@'] + host) + tail) == plain
            &&& google_api_url("https://"@ + (user + seq!['@'] + with_port) + tail) == plain
        }),
{
    reveal_strlit("https://");
    let with_port = host + seq![':'] + port;
    let a = user + seq!['@'] + host;
    let b = user + seq!['@'] + with_port;
    assert forall|c: char| #[trigger] with_port.contains(c) implies c == ':' || host.contains(c)
        || port.contains(c) by {
        let i = choose|i: int| 0 <= i < with_port.len() && with_port[i] == c;
        if i < host.len() {
            assert(host[i] == c);
        } else if i > host.len() {
            assert(port[i - host.len() - 1] == c);
        }
    }
    assert forall|c: char| #[trigger] a.contains(c) implies c == '@' || user.contains(c)
        || host.contains(c) by {
        let i = choose|i: int| 0 <= i < a.len() && a[i] == c;
        if i < user.len() {
            assert(user[i] == c);
        } else if i > user.len() {
            assert(host[i - user.len() - 1] == c);
        }
    }
    assert forall|c: char| #[trigger] b.contains(c) implies c == '@' || user.contains(c)
        || with_port.contains(c) by {
        let i = choose|i: int| 0 <= i < b.len() && b[i] == c;
        if i < user.len() {
            assert(user[i] == c);
        } else if i > user.len() {
            assert(with_port[i - user.len() - 1] == c);
        }
    }
    lemma_userinfo_is(user, host);
    lemma_userinfo_is(user, with_port);
    assert(host =~= host.subrange(0, host.len() as int));
    assert(host =~= with_port.subrange(0, host.len() as int));
    lemma_host_of(host, host, host, tail);
    lemma_host_of(with_port, with_port, host, tail);
    lemma_host_of(a, host, host, tail);
    lemma_host_of(b, with_port, host, tail);
    assert(("https://"@ + host + tail).skip(8) =~= host + tail);
    assert(("https://"@ + with_port + tail).skip(8) =~= with_port + tail);
    assert(("https://"@ + a + tail).skip(8) =~= a + tail);
    assert(("https://"@ + b + tail).skip(8) =~= b + tail);
    assert("https://"@ =~= ("https://"@ + host + tail).subrange(0, 8));
    assert("https://"@ =~= ("https://"@ + with_port + tail).subrange(0, 8));
    assert("https://"@ =~= ("https://"@ + a + tail).subrange(0, 8));
    assert("https://"@ =~= ("https://"@ + b + tail).subrange(0, 8));
}

/// The model of a post shows every part of it.
pub proof fn posts_are_modelled_part_for_part(p: FormPost)
    ensures
        p@.url == p.url@,
        p@.form.len() == p.form@.len(),
        forall|i: int|
            0 <= i < p.form@.len() ==> (#[trigger] p@.form[i]).0 == p.form@[i].0@ && p@.form[i].1
                == p.form@[i].1@,
        p@.send_context == p.send_context@,
        p@.body_context == p.body_context@,
{
}

} // verus!
