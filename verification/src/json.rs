//! JSON values.
//!
//! [`Json`] is the form in which the library reads requests and replies and
//! builds its own; [`JsonModel`] is its mathematical model.

use crate::text;
use crate::text::str_eq;
use vstd::prelude::*;

verus! {

/// A JSON value. Numbers keep the three forms in which a reader meets them: a
/// non-negative integer, a negative integer, and any other number, which is
/// carried as its text. An object is the list of its members.
#[derive(Debug, PartialEq)]
pub enum Json {
    Null,
    Bool(bool),
    PosInt(u64),
    NegInt(i64),
    Float(String),
    Str(String),
    Array(Vec<Json>),
    Object(Vec<(String, Json)>),
}

/// The model of a JSON value.
pub enum JsonModel {
    Null,
    Bool(bool),
    PosInt(u64),
    NegInt(i64),
    Float(Seq<char>),
    Str(Seq<char>),
    Array(Seq<JsonModel>),
    Object(Seq<(Seq<char>, JsonModel)>),
}

/// The model of `j`.
pub open spec fn model_of(j: Json) -> JsonModel
    decreases j,
{
    match j {
        Json::Null => JsonModel::Null,
        Json::Bool(b) => JsonModel::Bool(b),
        Json::PosInt(n) => JsonModel::PosInt(n),
        Json::NegInt(n) => JsonModel::NegInt(n),
        Json::Float(t) => JsonModel::Float(t@),
        Json::Str(s) => JsonModel::Str(s@),
        Json::Array(v) => JsonModel::Array(
            Seq::new(
                v@.len(),
                |i: int|
                    if 0 <= i < v@.len() {
                        model_of(v@[i])
                    } else {
                        JsonModel::Null
                    },
            ),
        ),
        Json::Object(v) => JsonModel::Object(
            Seq::new(
                v@.len(),
                |i: int|
                    if 0 <= i < v@.len() {
                        (v@[i].0@, model_of(v@[i].1))
                    } else {
                        (Seq::empty(), JsonModel::Null)
                    },
            ),
        ),
    }
}

impl View for Json {
    type V = JsonModel;

    open spec fn view(&self) -> JsonModel {
        model_of(*self)
    }
}

/// The model of an array is made of the models of its items.
pub proof fn lemma_array_model(v: Vec<Json>)
    ensures
        model_of(Json::Array(v)) == JsonModel::Array(items_model(v@)),
{
    reveal_with_fuel(model_of, 2);
    assert(model_of(Json::Array(v))->Array_0 =~= items_model(v@));
}

/// The model of an object is made of the models of its members.
pub proof fn lemma_object_model(v: Vec<(String, Json)>)
    ensures
        model_of(Json::Object(v)) == JsonModel::Object(members_model(v@)),
{
    reveal_with_fuel(model_of, 2);
    assert(model_of(Json::Object(v))->Object_0 =~= members_model(v@));
}

/// The models of a list of values.
pub open spec fn items_model(v: Seq<Json>) -> Seq<JsonModel> {
    Seq::new(v.len(), |i: int| v[i]@)
}

/// The models of a list of members.
pub open spec fn members_model(v: Seq<(String, Json)>) -> Seq<(Seq<char>, JsonModel)> {
    Seq::new(v.len(), |i: int| (v[i].0@, v[i].1@))
}

/// The value of the first member named `key`.
pub open spec fn lookup(members: Seq<(Seq<char>, JsonModel)>, key: Seq<char>) -> Option<JsonModel>
    decreases members.len(),
{
    if members.len() == 0 {
        None
    } else if members[0].0 == key {
        Some(members[0].1)
    } else {
        lookup(members.skip(1), key)
    }
}

impl JsonModel {
    /// The member named `key`; `None` where the value is no object or has no
    /// such member.
    pub open spec fn field(self, key: Seq<char>) -> Option<JsonModel> {
        match self {
            JsonModel::Object(members) => lookup(members, key),
            _ => None,
        }
    }

    /// The text, where the value is a string.
    pub open spec fn text(self) -> Option<Seq<char>> {
        match self {
            JsonModel::Str(s) => Some(s),
            _ => None,
        }
    }

    /// The number, where the value is an integer in the range of `u64`.
    pub open spec fn unsigned(self) -> Option<u64> {
        match self {
            JsonModel::PosInt(n) => Some(n),
            _ => None,
        }
    }

    /// The number, where the value is an integer in the range of `i64`.
    pub open spec fn signed(self) -> Option<i64> {
        match self {
            JsonModel::PosInt(n) => if n <= i64::MAX {
                Some(n as i64)
            } else {
                None
            },
            JsonModel::NegInt(n) => Some(n),
            _ => None,
        }
    }

    /// The text of the member named `key`, where that is a string.
    pub open spec fn field_text(self, key: Seq<char>) -> Option<Seq<char>> {
        match self.field(key) {
            Some(v) => v.text(),
            None => None,
        }
    }

    /// The member named `key`, where that is an integer in the range of `u64`.
    pub open spec fn field_unsigned(self, key: Seq<char>) -> Option<u64> {
        match self.field(key) {
            Some(v) => v.unsigned(),
            None => None,
        }
    }

    /// The member named `key`, where that is an integer in the range of `i64`.
    pub open spec fn field_signed(self, key: Seq<char>) -> Option<i64> {
        match self.field(key) {
            Some(v) => v.signed(),
            None => None,
        }
    }
}

impl Json {
    /// A string value.
    pub fn text(s: &str) -> (r: Json)
        ensures
            r@ == JsonModel::Str(s@),
    {
        Json::Str(s.to_owned())
    }

    /// An object with the given members.
    pub fn object(members: Vec<(String, Json)>) -> (r: Json)
        ensures
            r@ == JsonModel::Object(members_model(members@)),
    {
        proof {
            lemma_object_model(members);
        }
        Json::Object(members)
    }

    /// An array with the given items.
    pub fn array(items: Vec<Json>) -> (r: Json)
        ensures
            r@ == JsonModel::Array(items_model(items@)),
    {
        proof {
            lemma_array_model(items);
        }
        Json::Array(items)
    }

    /// The member named `key`.
    pub fn get(&self, key: &str) -> (r: Option<&Json>)
        ensures
            match r {
                Some(v) => self@.field(key@) == Some(v@),
                None => self@.field(key@) is None,
            },
    {
        match self {
            Json::Object(v) => {
                let ghost all = members_model(v@);
                proof {
                    lemma_object_model(*v);
                }
                assert(all.skip(0) =~= all);
                let mut i: usize = 0;
                while i < v.len()
                    invariant
                        i <= v@.len(),
                        all == members_model(v@),
                        self@ == JsonModel::Object(all),
                        lookup(all.skip(i as int), key@) == lookup(all, key@),
                    decreases v@.len() - i,
                {
                    assert(all.skip(i as int)[0] == all[i as int]);
                    if str_eq(v[i].0.as_str(), key) {
                        return Some(&v[i].1);
                    }
                    assert(all.skip(i as int).skip(1) =~= all.skip(i + 1));
                    i = i + 1;
                }
                None
            },
            _ => None,
        }
    }

    /// The text, where the value is a string.
    pub fn as_str(&self) -> (r: Option<&str>)
        ensures
            match r {
                Some(s) => self@.text() == Some(s@),
                None => self@.text() is None,
            },
    {
        match self {
            Json::Str(s) => Some(s.as_str()),
            _ => None,
        }
    }

    /// The number, where the value is an integer in the range of `u64`.
    pub fn as_u64(&self) -> (r: Option<u64>)
        ensures
            r == self@.unsigned(),
    {
        match self {
            Json::PosInt(n) => Some(*n),
            _ => None,
        }
    }

    /// The number, where the value is an integer in the range of `i64`.
    pub fn as_i64(&self) -> (r: Option<i64>)
        ensures
            r == self@.signed(),
    {
        match self {
            Json::PosInt(n) => if *n <= i64::MAX as u64 {
                Some(*n as i64)
            } else {
                None
            },
            Json::NegInt(n) => Some(*n),
            _ => None,
        }
    }

    /// Whether the value is `null`.
    pub fn is_null(&self) -> (r: bool)
        ensures
            r == (self@ == JsonModel::Null),
    {
        match self {
            Json::Null => true,
            _ => false,
        }
    }

    /// A copy of the text of the member named `key`, where that is a string.
    pub fn field_str(&self, key: &str) -> (r: Option<String>)
        ensures
            text::opt_text(r) == self@.field_text(key@),
    {
        match self.get(key) {
            Some(v) => match v.as_str() {
                Some(s) => Some(s.to_owned()),
                None => None,
            },
            None => None,
        }
    }

    /// The member named `key`, where that is an integer in the range of `u64`.
    pub fn field_u64(&self, key: &str) -> (r: Option<u64>)
        ensures
            r == self@.field_unsigned(key@),
    {
        match self.get(key) {
            Some(v) => v.as_u64(),
            None => None,
        }
    }

    /// The member named `key`, where that is an integer in the range of `i64`.
    pub fn field_i64(&self, key: &str) -> (r: Option<i64>)
        ensures
            r == self@.field_signed(key@),
    {
        match self.get(key) {
            Some(v) => v.as_i64(),
            None => None,
        }
    }

    /// An equal value that shares nothing with this one.
    pub fn copy(&self) -> (r: Json)
        ensures
            r@ == self@,
        decreases self,
    {
        match self {
            Json::Null => Json::Null,
            Json::Bool(b) => Json::Bool(*b),
            Json::PosInt(n) => Json::PosInt(*n),
            Json::NegInt(n) => Json::NegInt(*n),
            Json::Float(t) => Json::Float(t.as_str().to_owned()),
            Json::Str(s) => Json::Str(s.as_str().to_owned()),
            Json::Array(v) => {
                let mut out: Vec<Json> = Vec::new();
                let mut i: usize = 0;
                while i < v.len()
                    invariant
                        i <= v@.len(),
                        out@.len() == i,
                        decreases_to!(self => v),
                        forall|k: int| 0 <= k < i ==> out@[k]@ == v@[k]@,
                    decreases v@.len() - i,
                {
                    let item: Json = v[i].copy();
                    out.push(item);
                    i = i + 1;
                }
                let r: Json = Json::array(out);
                proof {
                    lemma_array_model(*v);
                    assert(items_model(out@) =~= items_model(v@));
                }
                r
            },
            Json::Object(v) => {
                let mut out: Vec<(String, Json)> = Vec::new();
                let mut i: usize = 0;
                while i < v.len()
                    invariant
                        i <= v@.len(),
                        out@.len() == i,
                        decreases_to!(self => v),
                        forall|k: int|
                            0 <= k < i ==> (#[trigger] out@[k]).0@ == v@[k].0@ && out@[k].1@
                                == v@[k].1@,
                    decreases v@.len() - i,
                {
                    let key: String = v[i].0.as_str().to_owned();
                    let value: Json = v[i].1.copy();
                    out.push((key, value));
                    i = i + 1;
                }
                let r: Json = Json::object(out);
                proof {
                    lemma_object_model(*v);
                    assert(members_model(out@) =~= members_model(v@));
                }
                r
            },
        }
    }
}

/// The members of an object under construction.
pub struct Members {
    list: Vec<(String, Json)>,
}

impl View for Members {
    type V = Seq<(Seq<char>, JsonModel)>;

    closed spec fn view(&self) -> Seq<(Seq<char>, JsonModel)> {
        members_model(self.list@)
    }
}

impl Members {
    /// No members.
    pub fn new() -> (r: Members)
        ensures
            r@ == Seq::<(Seq<char>, JsonModel)>::empty(),
    {
        let r: Members = Members { list: Vec::new() };
        assert(r@ =~= Seq::<(Seq<char>, JsonModel)>::empty());
        r
    }

    /// The members with one more at the end.
    pub fn with(self, key: &str, value: Json) -> (r: Members)
        ensures
            r@ == self@.push((key@, value@)),
    {
        let mut list: Vec<(String, Json)> = self.list;
        list.push((key.to_owned(), value));
        let r: Members = Members { list };
        assert(r@ =~= self@.push((key@, value@)));
        r
    }

    /// The object with these members.
    pub fn into_json(self) -> (r: Json)
        ensures
            r@ == JsonModel::Object(self@),
    {
        Json::object(self.list)
    }
}

/// The items of an array of strings.
pub open spec fn text_items(v: Seq<Seq<char>>) -> Seq<JsonModel> {
    Seq::new(v.len(), |i: int| JsonModel::Str(v[i]))
}

/// The array of the given strings.
pub fn text_array(v: &[String]) -> (r: Json)
    ensures
        r@ == JsonModel::Array(text_items(text::texts(v@))),
{
    let mut items: Vec<Json> = Vec::new();
    let mut i: usize = 0;
    while i < v.len()
        invariant
            i <= v@.len(),
            items@.len() == i,
            forall|k: int| 0 <= k < i ==> items@[k]@ == JsonModel::Str(v@[k]@),
        decreases v@.len() - i,
    {
        items.push(Json::text(v[i].as_str()));
        i = i + 1;
    }
    let r: Json = Json::array(items);
    assert(r@->Array_0 =~= text_items(text::texts(v@)));
    r
}

// ---------------------------------------------------------------------------
// Laws

/// The first member of a name is the one that is read.
pub proof fn first_members_are_read(members: Seq<(Seq<char>, JsonModel)>, i: int)
    requires
        0 <= i < members.len(),
        forall|j: int| 0 <= j < i ==> (#[trigger] members[j]).0 != members[i].0,
    ensures
        JsonModel::Object(members).field(members[i].0) == Some(members[i].1),
    decreases i,
{
    if i > 0 {
        assert(members[0].0 != members[i].0);
        let rest = members.skip(1);
        assert(rest[i - 1] == members[i]);
        assert forall|j: int| 0 <= j < i - 1 implies (#[trigger] rest[j]).0 != rest[i - 1].0 by {
            assert(rest[j] == members[j + 1]);
        }
        first_members_are_read(rest, i - 1);
    }
}

/// A name that no member has is not found.
pub proof fn missing_members_are_not_found(members: Seq<(Seq<char>, JsonModel)>, key: Seq<char>)
    requires
        forall|j: int| 0 <= j < members.len() ==> (#[trigger] members[j]).0 != key,
    ensures
        JsonModel::Object(members).field(key) is None,
    decreases members.len(),
{
    if members.len() > 0 {
        let rest = members.skip(1);
        assert forall|j: int| 0 <= j < rest.len() implies (#[trigger] rest[j]).0 != key by {
            assert(rest[j] == members[j + 1]);
        }
        assert(members[0].0 != key);
        missing_members_are_not_found(rest, key);
    }
}

/// A member is read as what it is: a string as its text, an integer as its
/// number where that fits, and nothing as something else. A value that is no
/// object has no members.
pub proof fn members_are_read_as_what_they_are(v: JsonModel, key: Seq<char>)
    ensures
        !(v is Object) ==> v.field(key) is None,
        match v.field(key) {
            Some(JsonModel::Str(s)) => v.field_text(key) == Some(s),
            _ => v.field_text(key) is None,
        },
        match v.field(key) {
            Some(JsonModel::PosInt(n)) => v.field_unsigned(key) == Some(n),
            _ => v.field_unsigned(key) is None,
        },
        match v.field(key) {
            Some(JsonModel::PosInt(n)) => match v.field_signed(key) {
                Some(m) => m == n,
                None => n > 0x7fff_ffff_ffff_ffff,
            },
            Some(JsonModel::NegInt(n)) => v.field_signed(key) == Some(n),
            _ => v.field_signed(key) is None,
        },
{
}

/// The items of an array of strings are these strings, in order.
pub proof fn text_items_are_the_texts(v: Seq<Seq<char>>)
    ensures
        text_items(v).len() == v.len(),
        forall|i: int| 0 <= i < v.len() ==> #[trigger] text_items(v)[i] == JsonModel::Str(v[i]),
{
}

/// The model of a value shows every part of it, in order.
pub proof fn values_are_modelled_part_for_part(j: Json)
    ensures
        match j {
            Json::Null => j@ == JsonModel::Null,
            Json::Bool(b) => j@ == JsonModel::Bool(b),
            Json::PosInt(n) => j@ == JsonModel::PosInt(n),
            Json::NegInt(n) => j@ == JsonModel::NegInt(n),
            Json::Float(t) => j@ == JsonModel::Float(t@),
            Json::Str(s) => j@ == JsonModel::Str(s@),
            Json::Array(v) => {
                &&& j@ matches JsonModel::Array(items)
                &&& items.len() == v@.len()
                &&& forall|i: int| 0 <= i < v@.len() ==> #[trigger] items[i] == v@[i]@
            },
            Json::Object(v) => {
                &&& j@ matches JsonModel::Object(members)
                &&& members.len() == v@.len()
                &&& forall|i: int|
                    0 <= i < v@.len() ==> (#[trigger] members[i]).0 == v@[i].0@ && members[i].1
                        == v@[i].1@
            },
        },
{
    match j {
        Json::Array(v) => {
            lemma_array_model(v);
        },
        Json::Object(v) => {
            lemma_object_model(v);
        },
        _ => {},
    }
}

} // verus!
