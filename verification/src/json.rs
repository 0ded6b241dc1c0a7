use vstd::prelude::*;

verus! {

/// What one decoded JSON document holds, as plain values. Numbers are kept
/// only as far as the records' fields need them: a number that fits in a
/// `u64` keeps its value (order ids are such numbers), any other number is
/// remembered only as being numeric. Object entries come in the decoder's
/// order with distinct keys; field lookup takes the first match.
pub enum JsonValue {
    Null,
    Bool(bool),
    UInt(u64),
    NonUInt,
    Text(String),
    Array(Vec<JsonValue>),
    Object(Vec<(String, JsonValue)>),
}

/// What decoding a line yields: the document's model, or nothing when the
/// line is not well-formed JSON. Decoding is a function of the characters
/// alone.
pub uninterp spec fn json_of(s: Seq<char>) -> Option<JsonValue>;

/// Relies on serde_json::from_str: decodes one JSON document, or fails on
/// a line that is not well-formed JSON. The result is rebuilt as a
/// `JsonValue` by `value_to_model` below.
#[verifier::external_body]
pub fn decode_json_line(line: &str) -> (r: Option<JsonValue>)
    ensures
        r == json_of(line@),
{
    match serde_json::from_str::<serde_json::Value>(line) {
        Ok(v) => Some(value_to_model(&v)),
        Err(_) => None,
    }
}

#[verifier::external_type_specification]
#[verifier::external_body]
pub struct ExValue(serde_json::Value);

/// The decoding half of `decode_json_line`, trusted with it as one unit:
/// it maps each `serde_json::Value` variant to the matching `JsonValue`
/// variant, moving the values over unchanged. Relies on
/// serde_json::Number::as_u64: the value when the number is an unsigned
/// integer in range, nothing otherwise.
#[verifier::external_body]
fn value_to_model(v: &serde_json::Value) -> JsonValue {
    match v {
        serde_json::Value::Null => JsonValue::Null,
        serde_json::Value::Bool(b) => JsonValue::Bool(*b),
        serde_json::Value::Number(n) => match n.as_u64() {
            Some(u) => JsonValue::UInt(u),
            None => JsonValue::NonUInt,
        },
        serde_json::Value::String(s) => JsonValue::Text(s.clone()),
        serde_json::Value::Array(a) => JsonValue::Array(a.iter().map(value_to_model).collect()),
        serde_json::Value::Object(m) => JsonValue::Object(
            m.iter().map(|(k, x)| (k.clone(), value_to_model(x))).collect(),
        ),
    }
}

/// The first entry with the given key, if any.
pub open spec fn spec_lookup(entries: Seq<(String, JsonValue)>, key: Seq<char>) -> Option<
    JsonValue,
>
    decreases entries.len(),
{
    if entries.len() == 0 {
        None
    } else if entries[0].0@ == key {
        Some(entries[0].1)
    } else {
        spec_lookup(entries.drop_first(), key)
    }
}

/// The value of a field of an object; nothing when the document is not an
/// object or has no such field.
pub open spec fn spec_field(v: JsonValue, key: Seq<char>) -> Option<JsonValue> {
    match v {
        JsonValue::Object(entries) => spec_lookup(entries@, key),
        _ => None,
    }
}

/// A field is absent when it is missing altogether or holds JSON null.
pub open spec fn spec_absent(f: Option<JsonValue>) -> bool {
    f is None || f == Some(JsonValue::Null)
}

/// The text of a field that holds a string, nothing otherwise.
pub open spec fn spec_text(f: Option<JsonValue>) -> Option<String> {
    match f {
        Some(JsonValue::Text(s)) => Some(s),
        _ => None,
    }
}

/// The value of a field that holds an unsigned integer, nothing otherwise.
pub open spec fn spec_uint(f: Option<JsonValue>) -> Option<u64> {
    match f {
        Some(JsonValue::UInt(u)) => Some(u),
        _ => None,
    }
}

proof fn lemma_lookup_skip(entries: Seq<(String, JsonValue)>, key: Seq<char>, i: int)
    requires
        0 <= i <= entries.len(),
        forall|j: int| 0 <= j < i ==> (#[trigger] entries[j]).0@ != key,
    ensures
        spec_lookup(entries, key) == spec_lookup(entries.skip(i), key),
    decreases i,
{
    if i > 0 {
        assert(entries.skip(0) =~= entries);
        lemma_lookup_skip(entries.drop_first(), key, i - 1);
        assert(entries.drop_first().skip(i - 1) =~= entries.skip(i));
    } else {
        assert(entries.skip(0) =~= entries);
    }
}

/// The first entry of `entries` whose key is `key`, if any.
pub fn lookup<'a>(entries: &'a Vec<(String, JsonValue)>, key: &str) -> (r: Option<&'a JsonValue>)
    ensures
        match r {
            Some(v) => spec_lookup(entries@, key@) == Some(*v),
            None => spec_lookup(entries@, key@) is None,
        },
{
    let wanted = key.to_owned();
    let n = entries.len();
    for i in 0..n
        invariant
            n == entries.len(),
            wanted@ == key@,
            forall|j: int| 0 <= j < i ==> (#[trigger] entries@[j]).0@ != key@,
    {
        if entries[i].0 == wanted {
            proof {
                lemma_lookup_skip(entries@, key@, i as int);
                assert(entries@.skip(i as int)[0] == entries@[i as int]);
            }
            return Some(&entries[i].1);
        }
    }
    proof {
        lemma_lookup_skip(entries@, key@, n as int);
        assert(entries@.skip(n as int).len() == 0);
    }
    None
}

/// The value of a field of `v`, when `v` is an object that has it.
pub fn get_field<'a>(v: &'a JsonValue, key: &str) -> (r: Option<&'a JsonValue>)
    ensures
        match r {
            Some(f) => spec_field(*v, key@) == Some(*f),
            None => spec_field(*v, key@) is None,
        },
{
    match v {
        JsonValue::Object(entries) => lookup(entries, key),
        _ => None,
    }
}

} // verus!
