//! Reading a JSON document: parsing it with serde_json and walking down to
//! the one string field that the transcription reply carries.

use vstd::prelude::*;

verus! {

#[verifier::external_type_specification]
#[verifier::external_body]
pub struct ExValue(serde_json::Value);

#[verifier::external_type_specification]
#[verifier::external_body]
pub struct ExJsonError(serde_json::Error);

/// A JSON document as the logic reads it; numbers are not told apart.
pub enum JsonTree {
    Null,
    Bool(bool),
    Number,
    Str(Seq<char>),
    Array(Seq<JsonTree>),
    Object(Map<Seq<char>, JsonTree>),
}

/// The document that a `serde_json::Value` holds.
pub uninterp spec fn tree_of(v: serde_json::Value) -> JsonTree;

/// The document that these bytes parse to, or none when the parser refuses
/// them: bytes that are not valid JSON, and valid JSON nested too deeply.
pub uninterp spec fn parsed(bytes: Seq<u8>) -> Option<JsonTree>;

/// The member of an object under `key`.
pub open spec fn at(t: Option<JsonTree>, key: Seq<char>) -> Option<JsonTree> {
    match t {
        Some(JsonTree::Object(m)) => if m.contains_key(key) {
            Some(m[key])
        } else {
            None
        },
        _ => None,
    }
}

/// The element of an array at index `i`.
pub open spec fn nth(t: Option<JsonTree>, i: nat) -> Option<JsonTree> {
    match t {
        Some(JsonTree::Array(s)) => if i < s.len() {
            Some(s[i as int])
        } else {
            None
        },
        _ => None,
    }
}

/// The text of a string, and the empty text for anything else.
pub open spec fn text_or_empty(t: Option<JsonTree>) -> Seq<char> {
    match t {
        Some(JsonTree::Str(s)) => s,
        _ => Seq::empty(),
    }
}

/// The string at `results.channels[0].alternatives[0].transcript`, or the
/// empty text where there is none.
pub open spec fn transcript_in(t: JsonTree) -> Seq<char> {
    text_or_empty(
        at(nth(at(nth(at(at(Some(t), "results"@), "channels"@), 0), "alternatives"@), 0), "transcript"@),
    )
}

/// The document of an optional value.
pub open spec fn tree_opt(v: Option<&serde_json::Value>) -> Option<JsonTree> {
    match v {
        Some(x) => Some(tree_of(*x)),
        None => None,
    }
}

/// Relies on `serde_json::from_slice` into a `Value`: it succeeds on the bytes
/// it accepts (valid JSON, nested no deeper than its recursion limit), and the
/// value then holds the document the bytes spell.
#[verifier::external_body]
pub(crate) fn parse_value(bytes: &[u8]) -> (r: Result<serde_json::Value, serde_json::Error>)
    ensures
        r matches Ok(v) ==> parsed(bytes@) == Some(tree_of(v)),
        r is Err ==> parsed(bytes@) is None,
{
    serde_json::from_slice(bytes)
}

/// Relies on `Value::get` with a string index: the member under `key` of an
/// object, and nothing for other values.
#[verifier::external_body]
fn member<'a>(v: &'a serde_json::Value, key: &str) -> (r: Option<&'a serde_json::Value>)
    ensures
        tree_opt(r) == at(Some(tree_of(*v)), key@),
{
    v.get(key)
}

/// Relies on `Value::get` with an integer index: the element at `i` of an
/// array, and nothing for other values.
#[verifier::external_body]
fn element<'a>(v: &'a serde_json::Value, i: usize) -> (r: Option<&'a serde_json::Value>)
    ensures
        tree_opt(r) == nth(Some(tree_of(*v)), i as nat),
{
    v.get(i)
}

/// Relies on `Value::as_str`: the text of a string, and nothing for other
/// values.
#[verifier::external_body]
fn string_text(v: &serde_json::Value) -> (r: Option<&str>)
    ensures
        r matches Some(s) ==> tree_of(*v) == JsonTree::Str(s@),
        r is None ==> !(tree_of(*v) is Str),
{
    v.as_str()
}

fn field<'a>(v: Option<&'a serde_json::Value>, key: &str) -> (r: Option<&'a serde_json::Value>)
    ensures
        tree_opt(r) == at(tree_opt(v), key@),
{
    match v {
        Some(x) => member(x, key),
        None => None,
    }
}

fn item<'a>(v: Option<&'a serde_json::Value>, i: usize) -> (r: Option<&'a serde_json::Value>)
    ensures
        tree_opt(r) == nth(tree_opt(v), i as nat),
{
    match v {
        Some(x) => element(x, i),
        None => None,
    }
}

/// The transcript that a reply document carries, or the empty text where
/// the document has none.
pub fn transcript_of(doc: &serde_json::Value) -> (r: String)
    ensures
        r@ == transcript_in(tree_of(*doc)),
{
    let results = field(Some(doc), "results");
    let channels = field(results, "channels");
    let channel = item(channels, 0);
    let alternatives = field(channel, "alternatives");
    let alternative = item(alternatives, 0);
    let transcript = field(alternative, "transcript");
    match transcript {
        Some(t) => match string_text(t) {
            Some(s) => String::from_str(s),
            None => String::new(),
        },
        None => String::new(),
    }
}

} // verus!
