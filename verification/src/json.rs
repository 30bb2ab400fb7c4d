//! JSON documents: a mathematical model of a document, and the `serde_json`
//! calls through which the library reads the documents that the cluster API
//! returns and writes the documents of the structured encoding.
//!
//! Every function of this module that is marked `external_body` is one call
//! into `serde_json`; its contract is taken on trust. `serde_json` is built
//! to keep the members of an object in the order of their insertion.

use vstd::prelude::*;

verus! {

/// Mathematical model of a JSON document. The members of an object stand
/// in the order in which the document holds them.
pub enum Json {
    Null,
    Bool(bool),
    /// A number that is a non-negative integer below 2^64.
    Unsigned(u64),
    /// Any other number: negative, fractional, or too large.
    OtherNumber,
    Text(Seq<char>),
    Array(Seq<Json>),
    Object(Seq<(Seq<char>, Json)>),
}

/// The value of the first member named `key`; `Null` where there is none.
pub open spec fn lookup(members: Seq<(Seq<char>, Json)>, key: Seq<char>) -> Json
    decreases members.len(),
{
    if members.len() == 0 {
        Json::Null
    } else if members[0].0 == key {
        members[0].1
    } else {
        lookup(members.drop_first(), key)
    }
}

impl Json {
    /// The member stored under `key`; `Null` where the document is not an
    /// object or has no such member.
    pub open spec fn member(self, key: Seq<char>) -> Json {
        match self {
            Json::Object(members) => lookup(members, key),
            _ => Json::Null,
        }
    }

    /// The elements of an array; none for any other document.
    pub open spec fn items(self) -> Option<Seq<Json>> {
        match self {
            Json::Array(items) => Some(items),
            _ => None,
        }
    }

    /// The characters of a string; none for any other document.
    pub open spec fn text(self) -> Option<Seq<char>> {
        match self {
            Json::Text(s) => Some(s),
            _ => None,
        }
    }

    /// The value of an unsigned integer; none for any other document.
    pub open spec fn unsigned(self) -> Option<u64> {
        match self {
            Json::Unsigned(n) => Some(n),
            _ => None,
        }
    }

    /// Whether the model says all there is to say of the document: it does
    /// unless a number other than an unsigned integer occurs in it.
    pub open spec fn exact(self) -> bool
        decreases self,
    {
        match self {
            Json::OtherNumber => false,
            Json::Array(items) => forall|i: int| 0 <= i < items.len() ==> (#[trigger] items[i]).exact(),
            Json::Object(members) => forall|i: int|
                0 <= i < members.len() ==> (#[trigger] members[i]).1.exact(),
            _ => true,
        }
    }
}

/// `serde_json::Value`, known by what [`json_model`] says of it.
#[verifier::external_type_specification]
#[verifier::external_body]
pub struct ExValue(serde_json::Value);

/// `serde_json::Error`, of which nothing is known.
#[verifier::external_type_specification]
#[verifier::external_body]
pub struct ExJsonError(serde_json::Error);

/// The document that a `serde_json::Value` holds.
pub uninterp spec fn json_model(v: serde_json::Value) -> Json;

/// The document that `serde_json::from_slice` reads from `body`; none where
/// it rejects the bytes.
pub uninterp spec fn parsed_json(body: Seq<u8>) -> Option<Json>;

/// The text that `serde_json::to_string_pretty` writes for a document.
pub uninterp spec fn pretty_text(doc: Json) -> Seq<char>;

/// The models of a vector of values, element by element.
pub open spec fn json_models(values: Seq<serde_json::Value>) -> Seq<Json> {
    Seq::new(values.len(), |i: int| json_model(values[i]))
}

/// The models of a vector of named values, element by element.
pub open spec fn member_models(members: Seq<(String, serde_json::Value)>) -> Seq<(Seq<char>, Json)> {
    Seq::new(members.len(), |i: int| (members[i].0@, json_model(members[i].1)))
}

/// No name occurs twice.
pub open spec fn distinct_names(members: Seq<(String, serde_json::Value)>) -> bool {
    forall|i: int, j: int|
        0 <= i < j < members.len() ==> (#[trigger] members[i]).0@ != (#[trigger] members[j]).0@
}

/// `serde_json::from_slice` at type `Value`: succeeds exactly on the bytes
/// for which [`parsed_json`] names a document, and returns a value holding it.
#[verifier::external_body]
pub(crate) fn json_parse(body: &[u8]) -> (r: Result<serde_json::Value, serde_json::Error>)
    ensures
        match r {
            Ok(v) => parsed_json(body@) == Some(json_model(v)),
            Err(_) => parsed_json(body@) is None,
        },
{
    serde_json::from_slice::<serde_json::Value>(body)
}

/// Indexing a `serde_json::Value` by a string key: the member of an object
/// under that key, and a null value in every other case.
#[verifier::external_body]
pub(crate) fn json_member<'a>(v: &'a serde_json::Value, key: &str) -> (r: &'a serde_json::Value)
    ensures
        json_model(*r) == json_model(*v).member(key@),
{
    &v[key]
}

/// `Value::as_array`: the elements where the value is an array, else none.
#[verifier::external_body]
pub(crate) fn json_items<'a>(v: &'a serde_json::Value) -> (r: Option<&'a Vec<serde_json::Value>>)
    ensures
        match r {
            Some(items) => json_model(*v).items() == Some(json_models(items@)),
            None => json_model(*v).items() is None,
        },
{
    v.as_array()
}

/// `Value::as_str`: the characters where the value is a string, else none.
#[verifier::external_body]
pub(crate) fn json_text<'a>(v: &'a serde_json::Value) -> (r: Option<&'a str>)
    ensures
        match r {
            Some(s) => json_model(*v).text() == Some(s@),
            None => json_model(*v).text() is None,
        },
{
    v.as_str()
}

/// `Value::as_u64`: the number where the value is a non-negative integer
/// below 2^64, else none.
#[verifier::external_body]
pub(crate) fn json_unsigned(v: &serde_json::Value) -> (r: Option<u64>)
    ensures
        r == json_model(*v).unsigned(),
{
    v.as_u64()
}

/// The variant `Value::String`: a value holding the given text.
#[verifier::external_body]
pub(crate) fn json_string(text: &str) -> (v: serde_json::Value)
    ensures
        json_model(v) == Json::Text(text@),
{
    serde_json::Value::String(text.to_owned())
}

/// The variant `Value::Array`: a value holding the given elements.
#[verifier::external_body]
pub(crate) fn json_array(items: Vec<serde_json::Value>) -> (v: serde_json::Value)
    ensures
        json_model(v) == Json::Array(json_models(items@)),
{
    serde_json::Value::Array(items)
}

/// The variant `Value::Object` over a `serde_json::Map` collected from the
/// given members: with no name occurring twice, the object holds them all,
/// in the order given.
#[verifier::external_body]
pub(crate) fn json_object(members: Vec<(String, serde_json::Value)>) -> (v: serde_json::Value)
    requires
        distinct_names(members@),
    ensures
        json_model(v) == Json::Object(member_models(members@)),
{
    serde_json::Value::Object(members.into_iter().collect())
}

/// `serde_json::to_string_pretty` on a `Value`. It fails only where a
/// `Serialize` impl fails or a map has a key that is no string, and neither
/// can happen with a `Value`; the text written is a function of the
/// document wherever the model is exact.
#[verifier::external_body]
pub(crate) fn json_pretty(v: &serde_json::Value) -> (r: Result<String, serde_json::Error>)
    ensures
        r is Ok,
        json_model(*v).exact() ==> r->Ok_0@ == pretty_text(json_model(*v)),
{
    serde_json::to_string_pretty(v)
}

} // verus!
