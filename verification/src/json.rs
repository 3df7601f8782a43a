//! JSON documents as the library reads and writes them.
//!
//! Text is parsed and written by `serde_json`; what the library's own logic
//! needs of a document is held in [`Json`], a plain tree. Its abstract value
//! is a [`JsonDoc`].

use crate::text::same_text;
use serde_json::Value;
use vstd::prelude::*;

verus! {

/// A JSON document.
#[derive(Debug, PartialEq, Eq)]
pub enum Json {
    Null,
    Bool(bool),
    /// A number, with its value where it is an unsigned integer of 64 bits;
    /// of a negative or fractional number only the kind is kept.
    Number(Option<u64>),
    Str(String),
    Array(Vec<Json>),
    Object(Vec<Member>),
}

/// One member of a JSON object.
#[derive(Debug, PartialEq, Eq)]
pub struct Member {
    pub key: String,
    pub value: Json,
}

/// The abstract value of a [`Json`].
pub enum JsonDoc {
    Null,
    Bool(bool),
    Number(Option<u64>),
    Str(Seq<char>),
    Array(Seq<JsonDoc>),
    Object(Seq<(Seq<char>, JsonDoc)>),
}

/// What a [`Json`] stands for.
pub open spec fn doc_of(json: Json) -> JsonDoc
    decreases json,
{
    match json {
        Json::Null => JsonDoc::Null,
        Json::Bool(b) => JsonDoc::Bool(b),
        Json::Number(n) => JsonDoc::Number(n),
        Json::Str(s) => JsonDoc::Str(s@),
        Json::Array(items) => JsonDoc::Array(
            Seq::new(
                items@.len(),
                |i: int|
                    if 0 <= i < items@.len() {
                        doc_of(items@[i])
                    } else {
                        JsonDoc::Null
                    },
            ),
        ),
        Json::Object(members) => JsonDoc::Object(
            Seq::new(
                members@.len(),
                |i: int|
                    if 0 <= i < members@.len() {
                        (members@[i].key@, doc_of(members@[i].value))
                    } else {
                        (Seq::empty(), JsonDoc::Null)
                    },
            ),
        ),
    }
}

impl View for Json {
    type V = JsonDoc;

    open spec fn view(&self) -> JsonDoc {
        doc_of(*self)
    }
}

/// The value of the first member of `members` whose key is `key`.
pub open spec fn member_of(members: Seq<(Seq<char>, JsonDoc)>, key: Seq<char>) -> Option<JsonDoc>
    decreases members.len(),
{
    if members.len() == 0 {
        None
    } else if members[0].0 == key {
        Some(members[0].1)
    } else {
        member_of(members.skip(1), key)
    }
}

/// The first member with a given key is the one found.
pub proof fn lemma_member_at(members: Seq<(Seq<char>, JsonDoc)>, key: Seq<char>, at: int)
    requires
        0 <= at < members.len(),
        members[at].0 == key,
        forall|j: int| 0 <= j < at ==> (#[trigger] members[j]).0 != key,
    ensures
        member_of(members, key) == Some(members[at].1),
    decreases at,
{
    if at > 0 {
        assert(members[0].0 != key);
        let rest = members.skip(1);
        assert forall|j: int| 0 <= j < at - 1 implies (#[trigger] rest[j]).0 != key by {
            assert(members[j + 1].0 != key);
        }
        lemma_member_at(rest, key, at - 1);
    }
}

impl JsonDoc {
    /// The member `key` of an object; `None` for what is no object and for an
    /// object without that key.
    pub open spec fn field(self, key: Seq<char>) -> Option<JsonDoc> {
        match self {
            JsonDoc::Object(members) => member_of(members, key),
            _ => None,
        }
    }

    /// The text of a string.
    pub open spec fn text(self) -> Option<Seq<char>> {
        match self {
            JsonDoc::Str(s) => Some(s),
            _ => None,
        }
    }

    /// The value of a boolean.
    pub open spec fn truth(self) -> Option<bool> {
        match self {
            JsonDoc::Bool(b) => Some(b),
            _ => None,
        }
    }

    /// The value of a number that is an unsigned integer of 64 bits.
    pub open spec fn unsigned(self) -> Option<u64> {
        match self {
            JsonDoc::Number(n) => n,
            _ => None,
        }
    }
}

/// The members of an object as pairs of key and value.
pub open spec fn entries(members: Seq<Member>) -> Seq<(Seq<char>, JsonDoc)> {
    Seq::new(members.len(), |i: int| (members[i].key@, members[i].value@))
}

impl Member {
    /// A member whose value is the string `value`.
    pub fn text(key: &str, value: &str) -> (member: Member)
        ensures
            member.key@ == key@,
            member.value@ == JsonDoc::Str(value@),
    {
        Member { key: key.to_string(), value: Json::Str(value.to_string()) }
    }
}

impl Json {
    /// The object with the given members, in their order.
    pub fn object(members: Vec<Member>) -> (doc: Json)
        ensures
            doc@ == JsonDoc::Object(entries(members@)),
    {
        let doc = Json::Object(members);
        assert(doc@->Object_0 =~= entries(members@));
        doc
    }

    /// The member `key` of an object.
    pub fn field(&self, key: &str) -> (found: Option<&Json>)
        ensures
            match found {
                Some(value) => self@.field(key@) == Some(value@),
                None => self@.field(key@) is None,
            },
    {
        match self {
            Json::Object(members) => {
                let ghost all = self@->Object_0;
                proof {
                    assert(*self == Json::Object(*members));
                    assert(self@ is Object);
                    assert(all.len() == members.len());
                    assert(all.skip(0) =~= all);
                    assert forall|j: int| 0 <= j < members.len() implies all[j] == (
                        members[j].key@,
                        members[j].value@,
                    ) by {}
                }
                let mut i: usize = 0;
                while i < members.len()
                    invariant
                        i <= members.len(),
                        self@ == JsonDoc::Object(all),
                        all.len() == members.len(),
                        forall|j: int|
                            0 <= j < members.len() ==> all[j] == (
                                members[j].key@,
                                members[j].value@,
                            ),
                        member_of(all, key@) == member_of(all.skip(i as int), key@),
                    decreases members.len() - i,
                {
                    proof {
                        assert(all.skip(i as int).skip(1) =~= all.skip(i + 1));
                    }
                    if same_text(members[i].key.as_str(), key) {
                        return Some(&members[i].value);
                    }
                    i = i + 1;
                }
                None
            },
            _ => None,
        }
    }

    /// The text of a string.
    pub fn as_str(&self) -> (text: Option<&str>)
        ensures
            match text {
                Some(s) => self@.text() == Some(s@),
                None => self@.text() is None,
            },
    {
        match self {
            Json::Str(s) => Some(s.as_str()),
            _ => None,
        }
    }

    /// The value of a boolean.
    pub fn as_bool(&self) -> (truth: Option<bool>)
        ensures
            truth == self@.truth(),
    {
        match self {
            Json::Bool(b) => Some(*b),
            _ => None,
        }
    }

    /// The value of a number that is an unsigned integer of 64 bits.
    pub fn as_u64(&self) -> (value: Option<u64>)
        ensures
            value == self@.unsigned(),
    {
        match self {
            Json::Number(n) => *n,
            _ => None,
        }
    }
}

/// Whether every number in `doc` carries its value, so that the document
/// can be written out as it stands.
pub open spec fn exact(doc: JsonDoc) -> bool
    decreases doc,
{
    match doc {
        JsonDoc::Number(n) => n is Some,
        JsonDoc::Array(items) => forall|i: int| 0 <= i < items.len() ==> exact(#[trigger] items[i]),
        JsonDoc::Object(members) => forall|i: int|
            0 <= i < members.len() ==> exact((#[trigger] members[i]).1),
        _ => true,
    }
}

/// The document that `serde_json` reads from `text`; `None` where it
/// refuses the text.
pub uninterp spec fn parsed(text: Seq<char>) -> Option<JsonDoc>;

/// The text that `serde_json` writes for `doc`.
pub uninterp spec fn rendered(doc: JsonDoc) -> Seq<char>;

/// A JSON value of `serde_json`. Its inside is not looked into: it is
/// copied into a [`Json`] as a whole.
#[verifier::external_type_specification]
#[verifier::external_body]
pub struct ExValue(Value);

/// Copies a `serde_json::Value` into a [`Json`], node for node.
///
/// Trusted: a conversion. The six variants of `Value` map to the six of
/// `Json`; of a number, `Number::as_u64` is kept, which is the number itself
/// where it was written as an unsigned integer that fits 64 bits, and nothing
/// otherwise. The members of an object come in the order in which the
/// `Value` holds them.
#[verifier::external_body]
pub(crate) fn json_from_value(value: Value) -> (doc: Json) {
    match value {
        Value::Null => Json::Null,
        Value::Bool(b) => Json::Bool(b),
        Value::Number(n) => Json::Number(n.as_u64()),
        Value::String(s) => Json::Str(s),
        Value::Array(items) => Json::Array(items.into_iter().map(json_from_value).collect()),
        Value::Object(members) => Json::Object(
            members.into_iter().map(|(key, v)| Member { key, value: json_from_value(v) }).collect(),
        ),
    }
}

/// Copies a [`Json`] into a `serde_json::Value`, node for node.
///
/// Trusted: a conversion, the reverse of [`json_from_value`]. A number
/// becomes `Value::from` of its value, and the members of an object are
/// collected into a `serde_json::Map` in their order. Callers hand in exact
/// documents only; a number without a value has no counterpart and would
/// become `null`.
#[verifier::external_body]
pub(crate) fn value_from_json(doc: &Json) -> (value: Value)
    requires
        exact(doc@),
{
    match doc {
        Json::Null => Value::Null,
        Json::Bool(b) => Value::Bool(*b),
        Json::Number(n) => n.map(Value::from).unwrap_or(Value::Null),
        Json::Str(s) => Value::String(s.clone()),
        Json::Array(items) => Value::Array(items.iter().map(value_from_json).collect()),
        Json::Object(members) => Value::Object(
            members.iter().map(|m| (m.key.clone(), value_from_json(&m.value))).collect(),
        ),
    }
}

/// Parses `text` as one JSON document.
///
/// Trusted: calls `serde_json::from_str` for a `Value` and copies the result
/// with [`json_from_value`]. The outcome depends on the text alone, so it has
/// a name, [`parsed`]. `serde_json` refuses text that is no JSON, text that
/// goes on after the document, and text nested deeper than its limit; where
/// an object names a key twice it keeps the later value.
#[verifier::external_body]
pub(crate) fn read_json(text: &str) -> (doc: Option<Json>)
    ensures
        match doc {
            Some(d) => parsed(text@) == Some(d@),
            None => parsed(text@) is None,
        },
{
    serde_json::from_str::<Value>(text).ok().map(json_from_value)
}

/// Writes `doc` as JSON text.
///
/// Trusted: copies the document with [`value_from_json`] and calls
/// `serde_json::to_string`, which writes a `Value` in compact form, the
/// members of an object in the order in which they were put in. The text
/// depends on the document alone, so it has a name, [`rendered`]. Writing a
/// `Value` to a string does not fail.
#[verifier::external_body]
pub(crate) fn write_json(doc: &Json) -> (text: String)
    requires
        exact(doc@),
    ensures
        text@ == rendered(doc@),
{
    serde_json::to_string(&value_from_json(doc)).unwrap_or_default()
}

} // verus!
