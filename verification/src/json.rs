//! JSON values as this library reads them, and the two places where text and
//! values meet: reading a response body and writing a request's variables.

use vstd::prelude::*;
use serde_json::Value;

verus! {

/// A JSON number, as far as the wire shapes can use it.
#[derive(Clone, Copy, Debug, PartialEq, Eq)]
pub enum Number {
    /// A whole number from 0 to 2^64 - 1.
    Unsigned(u64),
    /// A whole number below 0.
    Negative(i64),
    /// Any other number; its value is not kept.
    Fraction,
}

/// The six kinds of JSON value.
#[derive(Clone, Copy, Debug, PartialEq, Eq)]
pub enum Kind {
    Null,
    Bool,
    Number,
    String,
    Array,
    Object,
}

/// A JSON value. An object keeps its members as a list of name and value;
/// where a name occurs twice, the first occurrence is the member.
#[derive(Debug, PartialEq, Eq)]
pub enum Json {
    Null,
    Bool(bool),
    Number(Number),
    String(String),
    Array(Vec<Json>),
    Object(Vec<(String, Json)>),
}

/// The mathematical model of a [`Json`] value.
pub enum JsonView {
    Null,
    Bool(bool),
    Number(Number),
    String(Seq<char>),
    Array(Seq<JsonView>),
    Object(Seq<(Seq<char>, JsonView)>),
}

/// The value of the first member called `key`, if there is one.
pub open spec fn lookup(members: Seq<(Seq<char>, JsonView)>, key: Seq<char>) -> Option<JsonView>
    decreases members.len(),
{
    if members.len() == 0 {
        None
    } else if members[0].0 == key {
        Some(members[0].1)
    } else {
        lookup(members.skip(1), key)
    }
}

impl JsonView {
    pub open spec fn kind(self) -> Kind {
        match self {
            JsonView::Null => Kind::Null,
            JsonView::Bool(_) => Kind::Bool,
            JsonView::Number(_) => Kind::Number,
            JsonView::String(_) => Kind::String,
            JsonView::Array(_) => Kind::Array,
            JsonView::Object(_) => Kind::Object,
        }
    }

    /// The member called `key` of an object; `None` for a value that is no
    /// object and for an object without such a member.
    pub open spec fn member(self, key: Seq<char>) -> Option<JsonView> {
        match self {
            JsonView::Object(members) => lookup(members, key),
            _ => None,
        }
    }
}

/// The model of a value: strings by their characters, lists and members in
/// their order.
pub open spec fn model(json: &Json) -> JsonView
    decreases json,
{
    match json {
        Json::Null => JsonView::Null,
        Json::Bool(flag) => JsonView::Bool(*flag),
        Json::Number(number) => JsonView::Number(*number),
        Json::String(text) => JsonView::String(text@),
        Json::Array(items) => JsonView::Array(
            Seq::new(
                items@.len(),
                |i: int|
                    if 0 <= i < items@.len() {
                        model(&items@[i])
                    } else {
                        JsonView::Null
                    },
            ),
        ),
        Json::Object(members) => JsonView::Object(
            Seq::new(
                members@.len(),
                |i: int|
                    if 0 <= i < members@.len() {
                        (members@[i].0@, model(&members@[i].1))
                    } else {
                        (Seq::empty(), JsonView::Null)
                    },
            ),
        ),
    }
}

impl View for Json {
    type V = JsonView;

    open spec fn view(&self) -> JsonView {
        model(self)
    }
}

impl Json {
    pub fn kind(&self) -> (kind: Kind)
        ensures
            kind == self@.kind(),
    {
        match self {
            Json::Null => Kind::Null,
            Json::Bool(_) => Kind::Bool,
            Json::Number(_) => Kind::Number,
            Json::String(_) => Kind::String,
            Json::Array(_) => Kind::Array,
            Json::Object(_) => Kind::Object,
        }
    }

    /// Looks a member of an object up by its name.
    pub fn member(&self, key: &str) -> (found: Option<&Json>)
        ensures
            match found {
                Some(value) => self@.member(key@) == Some(value@),
                None => self@.member(key@) is None,
            },
    {
        match self {
            Json::Object(members) => {
                let wanted = String::from_str(key);
                let ghost all = self@->Object_0;
                proof {
                    assert(all.skip(0) =~= all);
                }
                let mut i: usize = 0;
                while i < members.len()
                    invariant
                        i <= members.len(),
                        wanted@ == key@,
                        self@ == JsonView::Object(all),
                        all.len() == members.len(),
                        forall|j: int|
                            0 <= j < members.len() ==> all[j] == (
                                #[trigger] members[j].0@,
                                members[j].1@,
                            ),
                        lookup(all, key@) == lookup(all.skip(i as int), key@),
                    decreases members.len() - i,
                {
                    proof {
                        assert(all.skip(i as int)[0] == all[i as int]);
                        assert(all.skip(i as int).skip(1) =~= all.skip(i + 1));
                    }
                    if members[i].0 == wanted {
                        return Some(&members[i].1);
                    }
                    i += 1;
                }
                None
            },
            _ => None,
        }
    }

    /// Reads a JSON text. The result is `Ok` exactly where the bytes are one
    /// JSON text; value and complaint are those that [`parsed`] names.
    pub fn from_slice(bytes: &[u8]) -> (r: Result<Json, String>)
        ensures
            match r {
                Ok(json) => parsed(bytes@) == Ok::<JsonView, Seq<char>>(json@),
                Err(complaint) => parsed(bytes@) == Err::<JsonView, Seq<char>>(complaint@),
            },
    {
        match read(bytes) {
            Ok(value) => Ok(lift(value)),
            Err(complaint) => Err(complaint),
        }
    }
}

/// `serde_json::Value`, which this library only carries from [`read`] to
/// [`lift`].
#[verifier::external_type_specification]
#[verifier::external_body]
pub struct ExValue(serde_json::Value);

/// What a `serde_json::Value` holds.
pub uninterp spec fn content(value: serde_json::Value) -> JsonView;

/// What `serde_json` makes of a text: the value that it reads, or its
/// complaint where the text is no JSON.
pub uninterp spec fn parsed(bytes: Seq<u8>) -> Result<JsonView, Seq<char>>;

/// The text that `serde_json` writes for the object with the one member
/// `name`, whose value is the string `value`.
pub uninterp spec fn rendered(name: Seq<char>, value: Seq<char>) -> Seq<char>;

/// `serde_json::from_slice` at the type `serde_json::Value`, an error
/// turned into its message. Trusted: value and message depend on the bytes
/// alone.
#[verifier::external_body]
fn read(bytes: &[u8]) -> (r: Result<serde_json::Value, String>)
    ensures
        match r {
            Ok(value) => parsed(bytes@) == Ok::<JsonView, Seq<char>>(content(value)),
            Err(complaint) => parsed(bytes@) == Err::<JsonView, Seq<char>>(complaint@),
        },
{
    serde_json::from_slice::<serde_json::Value>(bytes).map_err(|error| error.to_string())
}

/// Moves a `serde_json::Value` into a [`Json`], variant by variant. Trusted:
/// the result holds what the value held, a number by `Number::as_u64` and
/// `Number::as_i64`, an object's members in the order in which its map
/// hands them out.
#[verifier::external_body]
fn lift(value: serde_json::Value) -> (json: Json)
    ensures
        json@ == content(value),
{
    match value {
        Value::Null => Json::Null,
        Value::Bool(flag) => Json::Bool(flag),
        Value::Number(n) => match (n.as_u64(), n.as_i64()) {
            (Some(n), _) => Json::Number(Number::Unsigned(n)),
            (None, Some(n)) => Json::Number(Number::Negative(n)),
            (None, None) => Json::Number(Number::Fraction),
        },
        Value::String(text) => Json::String(text),
        Value::Array(items) => Json::Array(items.into_iter().map(lift).collect()),
        Value::Object(map) => Json::Object(map.into_iter().map(|(k, v)| (k, lift(v))).collect()),
    }
}

/// `serde_json`'s `Display` for the object `{ name: value }`. Trusted: the
/// text depends on the two strings alone.
#[verifier::external_body]
pub(crate) fn object_text(name: &str, value: &str) -> (text: String)
    ensures
        text@ == rendered(name@, value@),
{
    let mut members = serde_json::Map::new();
    members.insert(name.to_owned(), serde_json::Value::String(value.to_owned()));
    serde_json::Value::Object(members).to_string()
}

} // verus!
