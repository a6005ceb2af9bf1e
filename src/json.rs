//! A plain JSON tree, filled by serde_json, and lookups on it.
use vstd::prelude::*;

verus! {

/// A JSON value as the library reads it.
///
/// Objects keep their members in a sequence; a number is kept as the `u64`
/// it denotes when it is a non-negative integer that fits, and as `None`
/// otherwise.
#[derive(Debug, PartialEq)]
pub enum Json {
    Null,
    Bool(bool),
    Number(Option<u64>),
    Str(String),
    Array(Vec<Json>),
    Object(Vec<(String, Json)>),
}

/// serde_json's own tree, which only the parsing wrappers below handle.
#[verifier::external_type_specification]
#[verifier::external_body]
pub struct ExJsonValue(serde_json::Value);

/// The tree that serde_json reads from `text`, or `None` when `text` is not
/// one well-formed JSON document.
pub uninterp spec fn json_of(text: Seq<char>) -> Option<Json>;

/// Relies on `serde_json::from_str::<serde_json::Value>`: it parses `text` as
/// one JSON document, and its result depends on the text alone.
#[verifier::external_body]
fn parse_json_text(text: &str) -> (r: Option<Json>)
    ensures
        r == json_of(text@),
{
    serde_json::from_str::<serde_json::Value>(text).ok().map(tree_of_value)
}

/// Part of `parse_json_text`: moves each variant of `serde_json::Value` to
/// its counterpart in `Json`, relying on `serde_json::Number::as_u64` to read
/// a number (`Some` exactly for a non-negative integer that fits a `u64`).
#[verifier::external_body]
fn tree_of_value(v: serde_json::Value) -> Json {
    match v {
        serde_json::Value::Null => Json::Null,
        serde_json::Value::Bool(b) => Json::Bool(b),
        serde_json::Value::Number(n) => Json::Number(n.as_u64()),
        serde_json::Value::String(s) => Json::Str(s),
        serde_json::Value::Array(a) => Json::Array(a.into_iter().map(tree_of_value).collect()),
        serde_json::Value::Object(o) => Json::Object(
            o.into_iter().map(|(k, x)| (k, tree_of_value(x))).collect(),
        ),
    }
}

/// Parses `text` as one JSON document.
pub fn parse_json(text: &str) -> (r: Option<Json>)
    ensures
        r == json_of(text@),
{
    parse_json_text(text)
}

/// The value of the first member named `key`.
pub open spec fn member(fields: Seq<(String, Json)>, key: Seq<char>) -> Option<Json>
    decreases fields.len(),
{
    if fields.len() == 0 {
        None
    } else if fields[0].0@ == key {
        Some(fields[0].1)
    } else {
        member(fields.drop_first(), key)
    }
}

/// The first member named `key` is the one at `i`.
pub proof fn lemma_member_at(fields: Seq<(String, Json)>, key: Seq<char>, i: int)
    requires
        0 <= i < fields.len(),
        fields[i].0@ == key,
        forall|k: int| 0 <= k < i ==> (#[trigger] fields[k]).0@ != key,
    ensures
        member(fields, key) == Some(fields[i].1),
    decreases i,
{
    if i > 0 {
        lemma_member_at(fields.drop_first(), key, i - 1);
    }
}

/// The member `key` of `j`, when `j` is an object that has one.
pub open spec fn field(j: Json, key: Seq<char>) -> Option<Json> {
    match j {
        Json::Object(fields) => member(fields@, key),
        _ => None,
    }
}

/// `field` applied to an optional value.
pub open spec fn field_of(j: Option<Json>, key: Seq<char>) -> Option<Json> {
    match j {
        Some(v) => field(v, key),
        None => None,
    }
}

/// The text of member `key`, when it is a string.
pub open spec fn str_field(j: Option<Json>, key: Seq<char>) -> Option<Seq<char>> {
    match field_of(j, key) {
        Some(Json::Str(s)) => Some(s@),
        _ => None,
    }
}

/// The number held by member `key`, when it is a `u64`.
pub open spec fn u64_field(j: Option<Json>, key: Seq<char>) -> Option<u64> {
    match field_of(j, key) {
        Some(Json::Number(Some(n))) => Some(n),
        _ => None,
    }
}

/// An optional string member: absent or `null` reads as `Some(None)`, a
/// string as `Some(Some(text))`; any other value does not fit (`None`).
pub open spec fn opt_str_field(j: Option<Json>, key: Seq<char>) -> Option<Option<Seq<char>>> {
    match field_of(j, key) {
        None => Some(None),
        Some(Json::Null) => Some(None),
        Some(Json::Str(s)) => Some(Some(s@)),
        _ => None,
    }
}

/// Looks up member `key` of `j`.
pub fn get_field<'a>(j: &'a Json, key: &String) -> (r: Option<&'a Json>)
    ensures
        field(*j, key@) == match r {
            Some(v) => Some(*v),
            None => None,
        },
{
    match j {
        Json::Object(fields) => {
            let mut i: usize = 0;
            assert(fields@.subrange(0, fields@.len() as int) =~= fields@);
            while i < fields.len()
                invariant
                    0 <= i <= fields@.len(),
                    field(*j, key@) == member(fields@, key@),
                    member(fields@, key@) == member(fields@.subrange(i as int, fields@.len() as int), key@),
                decreases fields@.len() - i,
            {
                let ghost rest = fields@.subrange(i as int, fields@.len() as int);
                assert(rest.drop_first() =~= fields@.subrange(i + 1, fields@.len() as int));
                assert(rest[0] == fields@[i as int]);
                if fields[i].0 == *key {
                    return Some(&fields[i].1);
                }
                i = i + 1;
            }
            None
        },
        _ => None,
    }
}

/// The value behind an optional reference.
pub open spec fn seen(o: Option<&Json>) -> Option<Json> {
    match o {
        Some(v) => Some(*v),
        None => None,
    }
}

/// The text of an optional string.
pub open spec fn text_of(o: Option<String>) -> Option<Seq<char>> {
    match o {
        Some(s) => Some(s@),
        None => None,
    }
}

/// Looks up member `key` of `j`, when there is a `j`.
pub fn get_member<'a>(j: Option<&'a Json>, key: &str) -> (r: Option<&'a Json>)
    ensures
        seen(r) == field_of(seen(j), key@),
{
    match j {
        Some(v) => {
            let k = String::from_str(key);
            get_field(v, &k)
        },
        None => None,
    }
}

/// Reads member `key` of `j` as a string.
pub fn get_str(j: Option<&Json>, key: &str) -> (r: Option<String>)
    ensures
        text_of(r) == str_field(seen(j), key@),
{
    match get_member(j, key) {
        Some(Json::Str(s)) => Some(s.clone()),
        _ => None,
    }
}

/// Reads member `key` of `j` as a `u64`.
pub fn get_u64(j: Option<&Json>, key: &str) -> (r: Option<u64>)
    ensures
        r == u64_field(seen(j), key@),
{
    match get_member(j, key) {
        Some(Json::Number(Some(n))) => Some(*n),
        _ => None,
    }
}

/// Reads member `key` of `j` as an optional string (see `opt_str_field`).
pub fn get_opt_str(j: Option<&Json>, key: &str) -> (r: Option<Option<String>>)
    ensures
        match r {
            Some(o) => opt_str_field(seen(j), key@) == Some(text_of(o)),
            None => opt_str_field(seen(j), key@) is None,
        },
{
    match get_member(j, key) {
        None => Some(None),
        Some(Json::Null) => Some(None),
        Some(Json::Str(s)) => Some(Some(s.clone())),
        _ => None,
    }
}

} // verus!
