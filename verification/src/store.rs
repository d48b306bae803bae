//! The document in which the tokens of an account are kept.
//!
//! ```json
//! {
//!   "access_token":  "ya29.a0Ad...",
//!   "refresh_token": "1//0g...",
//!   "expires_at":    1720000000,
//!   "scopes":        ["https://www.googleapis.com/auth/gmail.readonly"]
//! }
//! ```
//!
//! `refresh_token` is left out where there is none.

use crate::client::TokenFile;
use crate::json;
use crate::json::{text_array, Json, JsonModel, Members};
use crate::text;
use crate::text::str_eq;
use crate::tokens::{GoogleTokens, TokensModel};
use vstd::prelude::*;

verus! {

/// An integer as a JSON number.
pub open spec fn integer_model(n: i64) -> JsonModel {
    if n >= 0 {
        JsonModel::PosInt(n as u64)
    } else {
        JsonModel::NegInt(n)
    }
}

/// The members of the document that keeps the tokens.
pub open spec fn document_members(t: TokensModel) -> Seq<(Seq<char>, JsonModel)> {
    let front = match t.refresh_token {
        Some(r) => seq![
            ("access_token"@, JsonModel::Str(t.access_token)),
            ("refresh_token"@, JsonModel::Str(r)),
        ],
        None => seq![("access_token"@, JsonModel::Str(t.access_token))],
    };
    front.push(("expires_at"@, integer_model(t.expires_at))).push(
        ("scopes"@, JsonModel::Array(json::text_items(t.scopes))),
    )
}

/// The document that keeps the tokens.
pub fn token_document(tokens: &GoogleTokens) -> (r: Json)
    ensures
        r@ == JsonModel::Object(document_members(tokens@)),
{
    let mut members: Members = Members::new().with(
        "access_token",
        Json::text(tokens.access_token.as_str()),
    );
    if let Some(refresh) = &tokens.refresh_token {
        members = members.with("refresh_token", Json::text(refresh.as_str()));
    }
    let expires_at: Json = if tokens.expires_at >= 0 {
        Json::PosInt(tokens.expires_at as u64)
    } else {
        Json::NegInt(tokens.expires_at)
    };
    let r: Json = members.with("expires_at", expires_at).with(
        "scopes",
        text_array(&tokens.scopes),
    ).into_json();
    assert(r@->Object_0 =~= document_members(tokens@));
    r
}

/// The texts of a list that holds nothing else.
pub open spec fn text_list(items: Seq<JsonModel>) -> Option<Seq<Seq<char>>> {
    if forall|i: int| 0 <= i < items.len() ==> (#[trigger] items[i]) is Str {
        Some(Seq::new(items.len(), |i: int| items[i]->Str_0))
    } else {
        None
    }
}

/// The tokens that the four parts of a document make, where each is of the
/// right kind; a refresh token may be missing or null.
pub open spec fn tokens_of_parts(
    access_token: Option<JsonModel>,
    refresh_token: Option<JsonModel>,
    expires_at: Option<JsonModel>,
    scopes: Option<JsonModel>,
) -> Option<TokensModel> {
    match (access_token, expires_at, scopes) {
        (Some(JsonModel::Str(access_token)), Some(e), Some(JsonModel::Array(items))) => {
            let refresh = match refresh_token {
                None => Some(None),
                Some(JsonModel::Null) => Some(None),
                Some(JsonModel::Str(r)) => Some(Some(r)),
                Some(_) => None,
            };
            if refresh is Some && e.signed() is Some && text_list(items) is Some {
                Some(
                    TokensModel {
                        access_token,
                        refresh_token: refresh->0,
                        expires_at: e.signed()->0,
                        scopes: text_list(items)->0,
                    },
                )
            } else {
                None
            }
        },
        _ => None,
    }
}

/// No two members have the given name.
pub open spec fn named_once(members: Seq<(Seq<char>, JsonModel)>, key: Seq<char>) -> bool {
    forall|i: int, j: int|
        0 <= i < j < members.len() ==> !((#[trigger] members[i]).0 == key && (
        #[trigger] members[j]).0 == key)
}

/// The tokens that a document keeps. Members of other names do not matter; a
/// list of the four parts will do as well.
pub open spec fn document_tokens(document: JsonModel) -> Option<TokensModel> {
    match document {
        JsonModel::Object(members) => if named_once(members, "access_token"@) && named_once(
            members,
            "refresh_token"@,
        ) && named_once(members, "expires_at"@) && named_once(members, "scopes"@) {
            tokens_of_parts(
                json::lookup(members, "access_token"@),
                json::lookup(members, "refresh_token"@),
                json::lookup(members, "expires_at"@),
                json::lookup(members, "scopes"@),
            )
        } else {
            None
        },
        JsonModel::Array(parts) => if parts.len() == 4 {
            tokens_of_parts(Some(parts[0]), Some(parts[1]), Some(parts[2]), Some(parts[3]))
        } else {
            None
        },
        _ => None,
    }
}

fn read_texts(items: &Vec<Json>) -> (r: Option<Vec<String>>)
    ensures
        match r {
            Some(v) => text_list(json::items_model(items@)) == Some(text::texts(v@)),
            None => text_list(json::items_model(items@)) is None,
        },
{
    let ghost all = json::items_model(items@);
    let mut out: Vec<String> = Vec::new();
    let mut i: usize = 0;
    while i < items.len()
        invariant
            i <= items@.len(),
            all == json::items_model(items@),
            out@.len() == i,
            forall|k: int| 0 <= k < i ==> #[trigger] all[k] == JsonModel::Str(out@[k]@),
        decreases items@.len() - i,
    {
        assert(all[i as int] == items@[i as int]@);
        match items[i].as_str() {
            Some(s) => {
                out.push(s.to_owned());
            },
            None => {
                return None;
            },
        }
        i = i + 1;
    }
    assert(text_list(all)->0 =~= text::texts(out@));
    Some(out)
}

/// The model of an optional part.
pub open spec fn opt_part(part: Option<&Json>) -> Option<JsonModel> {
    match part {
        Some(j) => Some(j@),
        None => None,
    }
}

fn read_parts(
    access_token: Option<&Json>,
    refresh_token: Option<&Json>,
    expires_at: Option<&Json>,
    scopes: Option<&Json>,
) -> (r: Option<GoogleTokens>)
    ensures
        ({
            let model = tokens_of_parts(
                opt_part(access_token),
                opt_part(refresh_token),
                opt_part(expires_at),
                opt_part(scopes),
            );
            match r {
                Some(t) => model == Some(t@),
                None => model is None,
            }
        }),
{
    let access_token: String = match access_token {
        Some(j) => match j.as_str() {
            Some(s) => s.to_owned(),
            None => {
                return None;
            },
        },
        None => {
            return None;
        },
    };
    let expires_at: i64 = match expires_at {
        Some(j) => match j.as_i64() {
            Some(n) => n,
            None => {
                return None;
            },
        },
        None => {
            return None;
        },
    };
    let scopes: Vec<String> = match scopes {
        Some(Json::Array(items)) => {
            proof {
                json::lemma_array_model(*items);
            }
            match read_texts(items) {
                Some(v) => v,
                None => {
                    return None;
                },
            }
        },
        _ => {
            return None;
        },
    };
    let refresh_token: Option<String> = match refresh_token {
        None => None,
        Some(Json::Null) => None,
        Some(Json::Str(s)) => Some(s.as_str().to_owned()),
        Some(_) => {
            return None;
        },
    };
    Some(GoogleTokens { access_token, refresh_token, expires_at, scopes })
}

fn is_named_once(members: &Vec<(String, Json)>, key: &str) -> (r: bool)
    ensures
        r == named_once(json::members_model(members@), key@),
{
    let ghost all = json::members_model(members@);
    let mut found: Option<usize> = None;
    let mut i: usize = 0;
    while i < members.len()
        invariant
            i <= members@.len(),
            all == json::members_model(members@),
            match found {
                Some(f) => f < i && all[f as int].0 == key@ && forall|k: int|
                    0 <= k < i && k != f ==> (#[trigger] all[k]).0 != key@,
                None => forall|k: int| 0 <= k < i ==> (#[trigger] all[k]).0 != key@,
            },
        decreases members@.len() - i,
    {
        assert(all[i as int].0 == members@[i as int].0@);
        if str_eq(members[i].0.as_str(), key) {
            if let Some(f) = found {
                assert(all[f as int].0 == key@ && all[i as int].0 == key@);
                return false;
            }
            found = Some(i);
        }
        i = i + 1;
    }
    true
}

/// The tokens that a document keeps.
pub fn read_document(document: &Json) -> (r: Option<GoogleTokens>)
    ensures
        match r {
            Some(t) => document_tokens(document@) == Some(t@),
            None => document_tokens(document@) is None,
        },
{
    match document {
        Json::Object(members) => {
            proof {
                json::lemma_object_model(*members);
            }
            if is_named_once(members, "access_token") && is_named_once(members, "refresh_token")
                && is_named_once(members, "expires_at") && is_named_once(members, "scopes") {
                read_parts(
                    document.get("access_token"),
                    document.get("refresh_token"),
                    document.get("expires_at"),
                    document.get("scopes"),
                )
            } else {
                None
            }
        },
        Json::Array(parts) => {
            proof {
                json::lemma_array_model(*parts);
            }
            if parts.len() == 4 {
                read_parts(Some(&parts[0]), Some(&parts[1]), Some(&parts[2]), Some(&parts[3]))
            } else {
                None
            }
        },
        _ => None,
    }
}

/// What a token file with the given document holds; `None` is a file that is
/// no JSON text.
pub fn token_file(document: Option<&Json>) -> (r: TokenFile)
    ensures
        match r {
            TokenFile::Tokens(t) => document is Some && document_tokens(document->0@) == Some(t@),
            TokenFile::Malformed => document is None || document_tokens(document->0@) is None,
            _ => false,
        },
{
    match document {
        Some(d) => match read_document(d) {
            Some(t) => TokenFile::Tokens(t),
            None => TokenFile::Malformed,
        },
        None => TokenFile::Malformed,
    }
}

/// Tokens that have been saved are read back as they were.
pub proof fn saved_tokens_are_read_back(t: TokensModel)
    ensures
        document_tokens(JsonModel::Object(document_members(t))) == Some(t),
{
    reveal_strlit("access_token");
    reveal_strlit("refresh_token");
    reveal_strlit("expires_at");
    reveal_strlit("scopes");
    assert("access_token"@.len() == 12);
    assert("refresh_token"@.len() == 13);
    assert("expires_at"@.len() == 10);
    assert("scopes"@.len() == 6);
    reveal_with_fuel(json::lookup, 5);
    let m = document_members(t);
    let items = json::text_items(t.scopes);
    assert(text_list(items)->0 =~= t.scopes);
    assert(integer_model(t.expires_at).signed() == Some(t.expires_at));
    match t.refresh_token {
        Some(r) => {
            assert(m.len() == 4);
            assert(m[0].0 == "access_token"@ && m[1].0 == "refresh_token"@ && m[2].0
                == "expires_at"@ && m[3].0 == "scopes"@);
            assert(json::lookup(m, "access_token"@) == Some(JsonModel::Str(t.access_token)));
            assert(m.skip(1)[0] == m[1]);
            assert(json::lookup(m, "refresh_token"@) == Some(JsonModel::Str(r)));
            assert(m.skip(1).skip(1)[0] == m[2]);
            assert(json::lookup(m, "expires_at"@) == Some(integer_model(t.expires_at)));
            assert(m.skip(1).skip(1).skip(1)[0] == m[3]);
            assert(json::lookup(m, "scopes"@) == Some(JsonModel::Array(items)));
        },
        None => {
            assert(m.len() == 3);
            assert(m[0].0 == "access_token"@ && m[1].0 == "expires_at"@ && m[2].0 == "scopes"@);
            assert(json::lookup(m, "access_token"@) == Some(JsonModel::Str(t.access_token)));
            assert(m.skip(1)[0] == m[1]);
            assert(json::lookup(m, "expires_at"@) == Some(integer_model(t.expires_at)));
            assert(m.skip(1).skip(1)[0] == m[2]);
            assert(json::lookup(m, "scopes"@) == Some(JsonModel::Array(items)));
            assert(json::lookup(m, "refresh_token"@) is None);
        },
    }
}

proof fn lemma_part_names()
    ensures
        "access_token"@.len() == 12,
        "refresh_token"@.len() == 13,
        "expires_at"@.len() == 10,
        "scopes"@.len() == 6,
{
    reveal_strlit("access_token");
    reveal_strlit("refresh_token");
    reveal_strlit("expires_at");
    reveal_strlit("scopes");
}

/// The document names each part of the tokens, and nothing else; a refresh token
/// that is not there is left out.
pub proof fn documents_name_the_parts(t: TokensModel)
    ensures
        ({
            let d = JsonModel::Object(document_members(t));
            &&& document_members(t).len() == (if t.refresh_token is Some {
                4int
            } else {
                3int
            })
            &&& d.field("access_token"@) == Some(JsonModel::Str(t.access_token))
            &&& match t.refresh_token {
                Some(r) => d.field("refresh_token"@) == Some(JsonModel::Str(r)),
                None => d.field("refresh_token"@) is None,
            }
            &&& d.field_signed("expires_at"@) == Some(t.expires_at)
            &&& d.field("scopes"@) matches Some(JsonModel::Array(items))
            &&& items.len() == t.scopes.len()
            &&& forall|i: int|
                0 <= i < items.len() ==> #[trigger] items[i] == JsonModel::Str(t.scopes[i])
        }),
{
    lemma_part_names();
    let m = document_members(t);
    json::first_members_are_read(m, 0);
    json::first_members_are_read(m, 1);
    json::first_members_are_read(m, 2);
    if t.refresh_token is Some {
        json::first_members_are_read(m, 3);
    } else {
        json::missing_members_are_not_found(m, "refresh_token"@);
    }
}

/// Every item is a string.
pub open spec fn all_texts(items: Seq<JsonModel>) -> bool {
    forall|i: int| 0 <= i < items.len() ==> (#[trigger] items[i]) is Str
}

/// A document without repeated names is read by name, whatever else it holds:
/// the access token and the scopes are texts, the expiry is a whole number, and
/// a refresh token is a text, null, or left out. Anything else is no set of
/// tokens.
pub proof fn documents_are_read_by_name(members: Seq<(Seq<char>, JsonModel)>)
    requires
        forall|i: int, j: int|
            0 <= i < j < members.len() ==> (#[trigger] members[i]).0 != (#[trigger] members[j]).0,
    ensures
        ({
            let d = JsonModel::Object(members);
            let refresh_fits = match d.field("refresh_token"@) {
                None => true,
                Some(JsonModel::Null) => true,
                Some(JsonModel::Str(_)) => true,
                _ => false,
            };
            match (d.field("access_token"@), d.field_signed("expires_at"@), d.field("scopes"@)) {
                (
                    Some(JsonModel::Str(access_token)),
                    Some(expires_at),
                    Some(JsonModel::Array(items)),
                ) => if refresh_fits && all_texts(items) {
                    &&& document_tokens(d) matches Some(t)
                    &&& t.access_token == access_token
                    &&& t.expires_at == expires_at
                    &&& match d.field("refresh_token"@) {
                        Some(JsonModel::Str(r)) => t.refresh_token == Some(r),
                        _ => t.refresh_token is None,
                    }
                    &&& t.scopes.len() == items.len()
                    &&& forall|i: int|
                        0 <= i < items.len() ==> #[trigger] items[i] == JsonModel::Str(t.scopes[i])
                } else {
                    document_tokens(d) is None
                },
                _ => document_tokens(d) is None,
            }
        }),
{
    let d = JsonModel::Object(members);
    assert(named_once(members, "access_token"@));
    assert(named_once(members, "refresh_token"@));
    assert(named_once(members, "expires_at"@));
    assert(named_once(members, "scopes"@));
    match d.field("scopes"@) {
        Some(JsonModel::Array(items)) => {
            if all_texts(items) {
                assert forall|i: int| 0 <= i < items.len() implies #[trigger] items[i]
                    == JsonModel::Str(text_list(items)->0[i]) by {}
            }
        },
        _ => {},
    }
}

/// A document that names one of the parts twice is no set of tokens. A list of
/// the four parts, in order, is read as the document that names them.
pub proof fn repeated_names_and_lists(
    members: Seq<(Seq<char>, JsonModel)>,
    i: int,
    j: int,
    parts: Seq<JsonModel>,
)
    requires
        0 <= i < j < members.len(),
        members[i].0 == members[j].0,
        members[i].0 == "access_token"@ || members[i].0 == "refresh_token"@ || members[i].0
            == "expires_at"@ || members[i].0 == "scopes"@,
    ensures
        document_tokens(JsonModel::Object(members)) is None,
        parts.len() == 4 ==> document_tokens(JsonModel::Array(parts)) == document_tokens(
            JsonModel::Object(
                seq![
                    ("access_token"@, parts[0]),
                    ("refresh_token"@, parts[1]),
                    ("expires_at"@, parts[2]),
                    ("scopes"@, parts[3]),
                ],
            ),
        ),
        parts.len() != 4 ==> document_tokens(JsonModel::Array(parts)) is None,
{
    assert(!named_once(members, members[i].0));
    if parts.len() == 4 {
        lemma_part_names();
        let m = seq![
            ("access_token"@, parts[0]),
            ("refresh_token"@, parts[1]),
            ("expires_at"@, parts[2]),
            ("scopes"@, parts[3]),
        ];
        json::first_members_are_read(m, 0);
        json::first_members_are_read(m, 1);
        json::first_members_are_read(m, 2);
        json::first_members_are_read(m, 3);
        assert(named_once(m, "access_token"@));
        assert(named_once(m, "refresh_token"@));
        assert(named_once(m, "expires_at"@));
        assert(named_once(m, "scopes"@));
    }
}

} // verus!
