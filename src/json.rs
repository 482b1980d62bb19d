use vstd::prelude::*;

verus! {

/// A JSON document as a tree: the loosely-typed form in which the external
/// tool's answers are read before they are projected into typed records.
#[derive(Debug, PartialEq, Eq)]
pub enum JsonValue {
    Null,
    Bool(bool),
    /// A number, in its JSON text form.
    Number(String),
    Str(String),
    Array(Vec<JsonValue>),
    /// The members of an object; no two share a key.
    Object(Vec<JsonMember>),
}

/// One `"key": value` member of a JSON object.
#[derive(Debug, PartialEq, Eq)]
pub struct JsonMember {
    pub key: String,
    pub value: JsonValue,
}

/// serde_json's error for text that is not JSON, carried opaquely.
#[verifier::external_type_specification]
#[verifier::external_body]
pub struct ExJsonError(serde_json::Error);

/// serde_json's tree, carried opaquely from the reader to the copy below.
#[verifier::external_type_specification]
#[verifier::external_body]
pub struct ExJsonTree(serde_json::Value);

/// The tree that a JSON text denotes, or `None` where the text is not JSON.
pub uninterp spec fn json_of_text(text: Seq<char>) -> Option<JsonValue>;

/// Relies on serde_json::from_str::<serde_json::Value>: reads a JSON text
/// into a tree, or fails where the text is not JSON. The result depends on
/// the text alone.
#[verifier::external_body]
fn read_json(text: &str) -> (r: Result<JsonValue, serde_json::Error>)
    ensures
        r is Ok <==> json_of_text(text@) is Some,
        r matches Ok(t) ==> json_of_text(text@) == Some(t),
{
    serde_json::from_str::<serde_json::Value>(text).map(tree_from_serde)
}

/// Relies on serde_json::Value's variants, and on serde_json::Number's
/// Display for the text of a number: copies serde_json's tree into a
/// `JsonValue`, one variant for one, object members in the map's order.
/// Only `read_json` uses it.
#[verifier::external_body]
fn tree_from_serde(v: serde_json::Value) -> JsonValue {
    match v {
        serde_json::Value::Null => JsonValue::Null,
        serde_json::Value::Bool(b) => JsonValue::Bool(b),
        serde_json::Value::Number(n) => JsonValue::Number(n.to_string()),
        serde_json::Value::String(s) => JsonValue::Str(s),
        serde_json::Value::Array(a) => JsonValue::Array(a.into_iter().map(tree_from_serde).collect()),
        serde_json::Value::Object(m) => JsonValue::Object(
            m.into_iter().map(|(key, v)| JsonMember { key, value: tree_from_serde(v) }).collect(),
        ),
    }
}

/// Relies on serde_json::Error's Display: the diagnostic of a failed read.
#[verifier::external_body]
fn json_error_text(e: &serde_json::Error) -> String {
    e.to_string()
}

/// Reads a JSON text; a text that is not JSON gives `ParseError` with the
/// reader's diagnostic.
pub fn parse_json(text: &str) -> (r: Result<JsonValue, crate::error::AudioError>)
    ensures
        r is Ok <==> json_of_text(text@) is Some,
        r matches Ok(t) ==> json_of_text(text@) == Some(t),
        r matches Err(e) ==> e is ParseError,
{
    match read_json(text) {
        Ok(t) => Ok(t),
        Err(e) => Err(crate::error::AudioError::ParseError(json_error_text(&e))),
    }
}

/// The value of the first member with the given key.
pub open spec fn lookup(ms: Seq<JsonMember>, key: Seq<char>) -> Option<JsonValue>
    decreases ms.len(),
{
    if ms.len() == 0 {
        None
    } else if ms[0].key@ == key {
        Some(ms[0].value)
    } else {
        lookup(ms.drop_first(), key)
    }
}

/// The member `key` of an object; `None` for a missing key or a value that is
/// not an object.
pub open spec fn member(v: JsonValue, key: Seq<char>) -> Option<JsonValue> {
    match v {
        JsonValue::Object(ms) => lookup(ms@, key),
        _ => None,
    }
}

/// The member `key` where it is a string.
pub open spec fn str_member(v: JsonValue, key: Seq<char>) -> Option<Seq<char>> {
    match member(v, key) {
        Some(JsonValue::Str(s)) => Some(s@),
        _ => None,
    }
}

/// The member `key` where it is a boolean.
pub open spec fn bool_member(v: JsonValue, key: Seq<char>) -> Option<bool> {
    match member(v, key) {
        Some(JsonValue::Bool(b)) => Some(b),
        _ => None,
    }
}

/// The member `key` where it is an array.
pub open spec fn array_member(v: JsonValue, key: Seq<char>) -> Option<Seq<JsonValue>> {
    match member(v, key) {
        Some(JsonValue::Array(a)) => Some(a@),
        _ => None,
    }
}

proof fn lemma_lookup_suffix(ms: Seq<JsonMember>, i: int, key: Seq<char>)
    requires
        0 <= i < ms.len(),
        ms[i].key@ != key,
    ensures
        lookup(ms.subrange(i, ms.len() as int), key) == lookup(ms.subrange(i + 1, ms.len() as int), key),
{
    let s = ms.subrange(i, ms.len() as int);
    assert(s.drop_first() =~= ms.subrange(i + 1, ms.len() as int));
}

/// Finds the member `key` of an object.
pub fn find_member<'a>(v: &'a JsonValue, key: &str) -> (r: Option<&'a JsonValue>)
    ensures
        r is None <==> member(*v, key@) is None,
        r matches Some(x) ==> member(*v, key@) == Some(*x),
{
    match v {
        JsonValue::Object(ms) => {
            let k = String::from_str(key);
            let mut i: usize = 0;
            assert(ms@.subrange(0, ms@.len() as int) =~= ms@);
            while i < ms.len()
                invariant
                    i <= ms@.len(),
                    k@ == key@,
                    member(*v, key@) == lookup(ms@, key@),
                    lookup(ms@, key@) == lookup(ms@.subrange(i as int, ms@.len() as int), key@),
                decreases ms@.len() - i,
            {
                if ms[i].key == k {
                    assert(ms@.subrange(i as int, ms@.len() as int)[0] == ms@[i as int]);
                    return Some(&ms[i].value);
                }
                proof {
                    lemma_lookup_suffix(ms@, i as int, key@);
                }
                i = i + 1;
            }
            None
        },
        _ => None,
    }
}

/// The member `key` where it is a string.
pub fn find_str(v: &JsonValue, key: &str) -> (r: Option<String>)
    ensures
        crate::device::opt_str_view(r) == str_member(*v, key@),
{
    match find_member(v, key) {
        Some(JsonValue::Str(s)) => Some(s.clone()),
        _ => None,
    }
}

/// The member `key` where it is a boolean.
pub fn find_bool(v: &JsonValue, key: &str) -> (r: Option<bool>)
    ensures
        r == bool_member(*v, key@),
{
    match find_member(v, key) {
        Some(JsonValue::Bool(b)) => Some(*b),
        _ => None,
    }
}

/// The member `key` where it is an array.
pub fn find_array<'a>(v: &'a JsonValue, key: &str) -> (r: Option<&'a Vec<JsonValue>>)
    ensures
        r is None <==> array_member(*v, key@) is None,
        r matches Some(a) ==> array_member(*v, key@) == Some(a@),
{
    match find_member(v, key) {
        Some(JsonValue::Array(a)) => Some(a),
        _ => None,
    }
}

} // verus!
