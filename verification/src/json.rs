//! JSON documents as plain values, and the reads the library makes of
//! them: a member of an object, a string, an array, an integer.
//!
//! Text is parsed by `serde_json`; its result is handed over as a `Json`
//! tree, whose object members come in the order of the parser's map.
use serde_json::Value;
use vstd::prelude::*;

verus! {

/// `serde_json::Value`, carried through opaque.
#[verifier::external_type_specification]
#[verifier::external_body]
pub struct ExJsonValue(Value);

/// A JSON number: a non-negative integer, a negative integer, or a number
/// with a fraction or exponent (kept as the text the parser prints for it).
#[derive(Debug)]
pub enum JsonNumber {
    PosInt(u64),
    NegInt(i64),
    Float(String),
}

/// A JSON value.
#[derive(Debug)]
pub enum Json {
    Null,
    Bool(bool),
    Number(JsonNumber),
    Str(String),
    Array(Vec<Json>),
    Object(Vec<(String, Json)>),
}

/// The value that `serde_json::from_str::<serde_json::Value>` reads from
/// `text`, or `None` where it refuses the text.
pub uninterp spec fn json_document(text: Seq<char>) -> Option<Json>;

/// The values that `serde_json::from_str::<Vec<serde_json::Value>>` reads
/// from `text`, or `None` where it refuses the text.
pub uninterp spec fn json_array_document(text: Seq<char>) -> Option<Vec<Json>>;

/// Moves a parsed `serde_json::Value` into a `Json` tree, variant for
/// variant; integers keep their value, other numbers their printed text.
#[verifier::external_body]
fn json_of_value(v: Value) -> Json {
    match v {
        Value::Null => Json::Null,
        Value::Bool(b) => Json::Bool(b),
        Value::Number(n) => Json::Number(match (n.as_u64(), n.as_i64()) {
            (Some(u), _) => JsonNumber::PosInt(u),
            (None, Some(i)) => JsonNumber::NegInt(i),
            (None, None) => JsonNumber::Float(n.to_string()),
        }),
        Value::String(s) => Json::Str(s),
        Value::Array(a) => Json::Array(a.into_iter().map(json_of_value).collect()),
        Value::Object(m) => Json::Object(m.into_iter().map(|(k, x)| (k, json_of_value(x))).collect()),
    }
}

/// Builds the `serde_json::Value` a `Json` tree stands for, variant for
/// variant (a number text the parser does not take becomes `null`).
#[verifier::external_body]
fn value_of_json(j: &Json) -> Value {
    match j {
        Json::Null => Value::Null,
        Json::Bool(b) => Value::Bool(*b),
        Json::Number(JsonNumber::PosInt(u)) => Value::from(*u),
        Json::Number(JsonNumber::NegInt(i)) => Value::from(*i),
        Json::Number(JsonNumber::Float(t)) => t.parse().map(Value::Number).unwrap_or(Value::Null),
        Json::Str(s) => Value::String(s.clone()),
        Json::Array(a) => Value::Array(a.iter().map(value_of_json).collect()),
        Json::Object(m) => Value::Object(m.iter().map(|(k, v)| (k.clone(), value_of_json(v))).collect()),
    }
}

/// The text `serde_json` prints for a value with `Display`: compact JSON.
pub uninterp spec fn json_text(j: Json) -> Seq<char>;

/// The members of an object whose values are all strings, as text pairs
/// in order; `None` where a value is not a string.
pub open spec fn string_members(fields: Seq<(String, Json)>) -> Option<Seq<(Seq<char>, Seq<char>)>>
    decreases fields.len(),
{
    if fields.len() == 0 {
        Some(seq![])
    } else {
        match (string_members(fields.drop_last()), fields.last().1) {
            (Some(done), Json::Str(v)) => Some(done.push((fields.last().0@, v@))),
            _ => None,
        }
    }
}

/// The members of an object whose values are all strings, as key and text
/// pairs in order; `None` for other values.
pub open spec fn object_strings(j: Json) -> Option<Seq<(Seq<char>, Seq<char>)>> {
    match j {
        Json::Object(fields) => string_members(fields@),
        _ => None,
    }
}

/// No two pairs share a key.
pub open spec fn distinct_keys(ps: Seq<(Seq<char>, Seq<char>)>) -> bool {
    forall|i: int, k: int| 0 <= i < k < ps.len() ==> #[trigger] ps[i].0 != #[trigger] ps[k].0
}

/// Where `j` is an object of strings under distinct keys, `text` parses
/// to an object of the same members, in some order.
pub open spec fn object_reads_back(j: Json, text: Seq<char>) -> bool {
    match object_strings(j) {
        Some(ps) => distinct_keys(ps) ==> match json_document(text) {
            Some(back) => match object_strings(back) {
                Some(qs) => qs.len() == ps.len() && qs.to_set() == ps.to_set(),
                None => false,
            },
            None => false,
        },
        None => true,
    }
}

/// `j` is an array of strings.
pub open spec fn strings_array(j: Json) -> bool {
    &&& j is Array
    &&& forall|i: int| 0 <= i < json_items(j).len() ==> #[trigger] json_items(j)[i] is Str
}

/// `Display` of `serde_json::Value`: the value as compact JSON text. For
/// an array of strings, the text parses back (as `Vec<Value>`) to the same
/// strings, as serde_json's writer escapes each string so that its reader
/// reads it again; for an object of strings under distinct keys, it parses
/// back to an object of the same members (in the map's key order, which
/// this contract leaves open).
#[verifier::external_body]
pub(crate) fn json_to_text(j: &Json) -> (r: String)
    ensures
        r@ == json_text(*j),
        strings_array(*j) ==> (json_array_document(r@) matches Some(items) && items@.len()
            == json_items(*j).len() && forall|i: int|
            0 <= i < items@.len() ==> #[trigger] json_str(items@[i]) == json_str(json_items(*j)[i])),
        object_reads_back(*j, r@),
{
    value_of_json(j).to_string()
}

/// `serde_json::from_str::<serde_json::Value>`: the document `text` holds,
/// or `None` where the text is no JSON.
#[verifier::external_body]
pub(crate) fn parse_json(text: &str) -> (r: Option<Json>)
    ensures
        r == json_document(text@),
{
    serde_json::from_str::<Value>(text).ok().map(json_of_value)
}

/// `serde_json::from_str::<Vec<serde_json::Value>>`: the elements of the
/// array `text` holds, or `None` where the text is no JSON array.
#[verifier::external_body]
pub(crate) fn parse_json_array(text: &str) -> (r: Option<Vec<Json>>)
    ensures
        r == json_array_document(text@),
{
    serde_json::from_str::<Vec<Value>>(text).ok().map(|v| v.into_iter().map(json_of_value).collect())
}

/// The member `key` of an object: the first field of that name (a parsed
/// object has each name once). `None` for other values.
pub open spec fn json_get(j: Json, key: Seq<char>) -> Option<Json> {
    match j {
        Json::Object(fields) => field_lookup(fields@, key),
        _ => None,
    }
}

/// The value of the first field named `key`.
pub open spec fn field_lookup(fields: Seq<(String, Json)>, key: Seq<char>) -> Option<Json>
    decreases fields.len(),
{
    if fields.len() == 0 {
        None
    } else if fields[0].0@ == key {
        Some(fields[0].1)
    } else {
        field_lookup(fields.drop_first(), key)
    }
}

/// `value[key]`: the member, or `Null` where there is none.
pub open spec fn json_index(j: Json, key: Seq<char>) -> Json {
    match json_get(j, key) {
        Some(v) => v,
        None => Json::Null,
    }
}

/// The text of a string value.
pub open spec fn json_str(j: Json) -> Option<Seq<char>> {
    match j {
        Json::Str(s) => Some(s@),
        _ => None,
    }
}

/// The elements of an array value.
pub open spec fn json_array(j: Json) -> Option<Seq<Json>> {
    match j {
        Json::Array(items) => Some(items@),
        _ => None,
    }
}

/// A number that is a non-negative integer.
pub open spec fn json_u64(j: Json) -> Option<u64> {
    match j {
        Json::Number(JsonNumber::PosInt(n)) => Some(n),
        _ => None,
    }
}

/// A number that is an integer within `i64`.
pub open spec fn json_i64(j: Json) -> Option<i64> {
    match j {
        Json::Number(JsonNumber::PosInt(n)) => if n <= i64::MAX as u64 {
            Some(n as i64)
        } else {
            None
        },
        Json::Number(JsonNumber::NegInt(n)) => Some(n),
        _ => None,
    }
}

/// The view of an optional string slice.
pub open spec fn opt_str_view(o: Option<&str>) -> Option<Seq<char>> {
    match o {
        Some(s) => Some(s@),
        None => None,
    }
}

/// The value of an optional reference.
pub open spec fn opt_deref<T>(o: Option<&T>) -> Option<T> {
    match o {
        Some(x) => Some(*x),
        None => None,
    }
}

fn field_lookup_exec<'a>(fields: &'a Vec<(String, Json)>, key: &str) -> (r: Option<&'a Json>)
    ensures
        opt_deref(r) == field_lookup(fields@, key@),
{
    let mut i: usize = 0;
    assert(fields@.skip(0) =~= fields@);
    while i < fields.len()
        invariant
            i <= fields.len(),
            field_lookup(fields@, key@) == field_lookup(fields@.skip(i as int), key@),
        decreases fields.len() - i,
    {
        assert(fields@.skip(i as int).drop_first() =~= fields@.skip(i + 1));
        if crate::text::str_eq(fields[i].0.as_str(), key) {
            return Some(&fields[i].1);
        }
        i = i + 1;
    }
    None
}

impl Json {
    /// `Value::get` with a string key.
    pub fn get(&self, key: &str) -> (r: Option<&Json>)
        ensures
            opt_deref(r) == json_get(*self, key@),
    {
        match self {
            Json::Object(fields) => field_lookup_exec(fields, key),
            _ => None,
        }
    }

    /// `Value::as_str`.
    pub fn as_str(&self) -> (r: Option<&str>)
        ensures
            opt_str_view(r) == json_str(*self),
    {
        match self {
            Json::Str(s) => Some(s.as_str()),
            _ => None,
        }
    }

    /// `Value::as_array`.
    pub fn as_array(&self) -> (r: Option<&Vec<Json>>)
        ensures
            match r {
                Some(v) => json_array(*self) == Some(v@),
                None => json_array(*self).is_none(),
            },
    {
        match self {
            Json::Array(items) => Some(items),
            _ => None,
        }
    }

    /// `Value::as_u64`.
    pub fn as_u64(&self) -> (r: Option<u64>)
        ensures
            r == json_u64(*self),
    {
        match self {
            Json::Number(JsonNumber::PosInt(n)) => Some(*n),
            _ => None,
        }
    }

    /// `Value::as_i64`.
    pub fn as_i64(&self) -> (r: Option<i64>)
        ensures
            r == json_i64(*self),
    {
        match self {
            Json::Number(JsonNumber::PosInt(n)) => if *n <= 9223372036854775807u64 {
                Some(*n as i64)
            } else {
                None
            },
            Json::Number(JsonNumber::NegInt(n)) => Some(*n),
            _ => None,
        }
    }
}

/// The text of an optional string member: `v.get(key).and_then(as_str)`.
pub open spec fn member_str(j: Json, key: Seq<char>) -> Option<Seq<char>> {
    match json_get(j, key) {
        Some(v) => json_str(v),
        None => None,
    }
}

/// `v.get(key).and_then(|x| x.as_str()).map(String::from)`.
pub fn member_string(j: &Json, key: &str) -> (r: Option<String>)
    ensures
        match r {
            Some(s) => member_str(*j, key@) == Some(s@),
            None => member_str(*j, key@).is_none(),
        },
{
    match j.get(key) {
        Some(v) => match v.as_str() {
            Some(s) => Some(s.to_owned()),
            None => None,
        },
        None => None,
    }
}

/// The names of an object's fields, in order; none for other values.
pub open spec fn json_keys(j: Json) -> Seq<Seq<char>> {
    match j {
        Json::Object(fields) => Seq::new(fields@.len(), |i: int| fields@[i].0@),
        _ => seq![],
    }
}

/// The elements of an array value, none for other values.
pub open spec fn json_items(j: Json) -> Seq<Json> {
    match j {
        Json::Array(items) => items@,
        _ => seq![],
    }
}

impl Json {
    /// The document `text` holds, or `None` where it is no JSON.
    pub fn parse(text: &str) -> (r: Option<Json>)
        ensures
            r == json_document(text@),
    {
        parse_json(text)
    }

    /// A string value.
    pub fn string(s: &str) -> (r: Json)
        ensures
            json_str(r) == Some(s@),
    {
        Json::Str(s.to_owned())
    }

    /// The value as compact JSON text, as `serde_json` prints it; an array
    /// of strings parses back to the same strings.
    pub fn to_text(&self) -> (r: String)
        ensures
            r@ == json_text(*self),
            strings_array(*self) ==> (json_array_document(r@) matches Some(items) && items@.len()
                == json_items(*self).len() && forall|i: int|
                0 <= i < items@.len() ==> #[trigger] json_str(items@[i]) == json_str(
                    json_items(*self)[i],
                )),
            object_reads_back(*self, r@),
    {
        json_to_text(self)
    }
}

} // verus!
