use vstd::prelude::*;
use vstd::string::*;

verus! {

/// A JSON number as the parser keeps it: a nonnegative integer, a negative
/// integer, or a number with a fraction or exponent (whose value no decoder
/// here reads).
#[derive(Clone, Debug)]
pub enum JsonNumber {
    PosInt(u64),
    NegInt(i64),
    Float,
}

/// A parsed JSON document. An object keeps its members in order; where a
/// key occurs more than once the last member counts, as the parser keeps it.
#[derive(Debug)]
pub enum JsonValue {
    Null,
    Bool(bool),
    Number(JsonNumber),
    String(String),
    Array(Vec<JsonValue>),
    Object(Vec<(String, JsonValue)>),
}

/// A JSON value as `serde_json` parses it.
#[verifier::external_type_specification]
#[verifier::external_body]
pub struct ExSerdeJsonValue(serde_json::Value);

/// The JSON value that `serde_json` parses `text` into, if `text` is JSON.
pub uninterp spec fn parsed_json(text: Seq<char>) -> Option<JsonValue>;

/// Parses `text` as JSON.
/// Trusted: `serde_json::from_str::<serde_json::Value>`, whose result is
/// converted variant for variant into `JsonValue` (an integer that fits in
/// `u64` as `PosInt`, another in `i64` as `NegInt`, any other number as
/// `Float`; an object's members in the parser's key order). The contract
/// claims only that the result is a function of the text, named
/// `parsed_json`; which texts parse and into what is not spelled out.
#[verifier::external_body]
pub(crate) fn parse_json(text: &str) -> (r: Option<JsonValue>)
    ensures
        r == parsed_json(text@),
{
    serde_json::from_str::<serde_json::Value>(text).ok().map(json_from_serde)
}

/// Converts a `serde_json` value into the library's JSON value, variant for
/// variant (used only inside `parse_json`).
#[verifier::external_body]
fn json_from_serde(v: serde_json::Value) -> JsonValue {
    match v {
        serde_json::Value::Null => JsonValue::Null,
        serde_json::Value::Bool(b) => JsonValue::Bool(b),
        serde_json::Value::Number(n) => JsonValue::Number(match (n.as_u64(), n.as_i64()) {
            (Some(u), _) => JsonNumber::PosInt(u),
            (None, Some(i)) => JsonNumber::NegInt(i),
            (None, None) => JsonNumber::Float,
        }),
        serde_json::Value::String(s) => JsonValue::String(s),
        serde_json::Value::Array(items) => JsonValue::Array(items.into_iter().map(json_from_serde).collect()),
        serde_json::Value::Object(m) => JsonValue::Object(m.into_iter().map(|(k, v)| (k, json_from_serde(v))).collect()),
    }
}

/// The value of the member `key` among `entries`: the last one with that key.
pub open spec fn member(entries: Seq<(String, JsonValue)>, key: Seq<char>) -> Option<JsonValue>
    decreases entries.len(),
{
    if entries.len() == 0 {
        None
    } else if entries.last().0@ == key {
        Some(entries.last().1)
    } else {
        member(entries.drop_last(), key)
    }
}

/// The member `key` of `v` when `v` is an object; nothing otherwise.
pub open spec fn object_member(v: JsonValue, key: Seq<char>) -> Option<JsonValue> {
    match v {
        JsonValue::Object(entries) => member(entries@, key),
        _ => None,
    }
}

/// The text of `v` when it is a string.
pub open spec fn str_of(v: JsonValue) -> Option<Seq<char>> {
    match v {
        JsonValue::String(s) => Some(s@),
        _ => None,
    }
}

/// What decoding `v` as a `bool` gives: only a JSON boolean decodes.
pub open spec fn bool_of(v: JsonValue) -> Option<bool> {
    match v {
        JsonValue::Bool(b) => Some(b),
        _ => None,
    }
}

/// What decoding `v` as a `u8` gives: an integer from 0 to 255.
pub open spec fn u8_of(v: JsonValue) -> Option<u8> {
    match v {
        JsonValue::Number(JsonNumber::PosInt(u)) => if u <= 255 { Some(u as u8) } else { None },
        JsonValue::Number(JsonNumber::NegInt(i)) => if 0 <= i <= 255 { Some(i as u8) } else { None },
        _ => None,
    }
}

/// What decoding `v` as an `i8` gives: an integer from -128 to 127.
pub open spec fn i8_of(v: JsonValue) -> Option<i8> {
    match v {
        JsonValue::Number(JsonNumber::PosInt(u)) => if u <= 127 { Some(u as i8) } else { None },
        JsonValue::Number(JsonNumber::NegInt(i)) => if -128 <= i <= 127 { Some(i as i8) } else { None },
        _ => None,
    }
}

impl JsonValue {
    /// The JSON string holding `s` (as `Value::from(String)` makes it): the
    /// text itself as a string value, not parsed.
    pub fn from_string(s: String) -> (r: JsonValue)
        ensures
            r == JsonValue::String(s),
    {
        JsonValue::String(s)
    }

    /// Takes the member `key` out of `self` when it is an object (as
    /// `as_object_mut().and_then(|m| m.remove(key))` does).
    pub fn take_member(self, key: &str) -> (r: Option<JsonValue>)
        ensures
            r == object_member(self, key@),
    {
        match self {
            JsonValue::Object(entries) => {
                let wanted = String::from_str(key);
                let ghost initial = entries@;
                let mut entries = entries;
                while entries.len() > 0
                    invariant
                        wanted@ == key@,
                        object_member(self, key@) == member(initial, key@),
                        member(initial, key@) == member(entries@, key@),
                    decreases entries@.len(),
                {
                    let ghost before = entries@;
                    let (k, v) = entries.pop().unwrap();
                    assert(before.drop_last() =~= entries@);
                    assert(before.last() == (k, v));
                    if k == wanted {
                        return Some(v);
                    }
                }
                None
            },
            _ => None,
        }
    }

    /// The text of `self` when it is a string (as `as_str` gives it).
    pub fn as_str(&self) -> (r: Option<&String>)
        ensures
            match r {
                Some(s) => str_of(*self) == Some(s@),
                None => str_of(*self) is None,
            },
    {
        match self {
            JsonValue::String(s) => Some(s),
            _ => None,
        }
    }
}

/// The member `key` among `entries`, looked up without taking it.
pub fn member_ref<'a>(entries: &'a Vec<(String, JsonValue)>, key: &str) -> (r: Option<&'a JsonValue>)
    ensures
        match r {
            Some(v) => member(entries@, key@) == Some(*v),
            None => member(entries@, key@) is None,
        },
{
    let wanted = String::from_str(key);
    let mut n = entries.len();
    assert(entries@.take(n as int) =~= entries@);
    while n > 0
        invariant
            wanted@ == key@,
            n <= entries@.len(),
            member(entries@, key@) == member(entries@.take(n as int), key@),
        decreases n,
    {
        let ghost prefix = entries@.take(n as int);
        assert(prefix.drop_last() =~= entries@.take(n - 1));
        assert(prefix.last() == entries@[n - 1]);
        if entries[n - 1].0 == wanted {
            return Some(&entries[n - 1].1);
        }
        n = n - 1;
    }
    None
}

/// Decodes a JSON value as a `bool`.
pub fn bool_from_json(v: &JsonValue) -> (r: Option<bool>)
    ensures
        r == bool_of(*v),
{
    match v {
        JsonValue::Bool(b) => Some(*b),
        _ => None,
    }
}

/// Decodes a JSON value as a `u8`.
pub fn u8_from_json(v: &JsonValue) -> (r: Option<u8>)
    ensures
        r == u8_of(*v),
{
    match v {
        JsonValue::Number(JsonNumber::PosInt(u)) => if *u <= 255 { Some(*u as u8) } else { None },
        JsonValue::Number(JsonNumber::NegInt(i)) => if 0 <= *i && *i <= 255 { Some(*i as u8) } else { None },
        _ => None,
    }
}

/// Decodes a JSON value as an `i8`.
pub fn i8_from_json(v: &JsonValue) -> (r: Option<i8>)
    ensures
        r == i8_of(*v),
{
    match v {
        JsonValue::Number(JsonNumber::PosInt(u)) => if *u <= 127 { Some(*u as i8) } else { None },
        JsonValue::Number(JsonNumber::NegInt(i)) => if -128 <= *i && *i <= 127 { Some(*i as i8) } else { None },
        _ => None,
    }
}


/// The member under `key` is the value of the last entry with that key.
proof fn lemma_member_at(s: Seq<(String, JsonValue)>, i: int, key: Seq<char>)
    requires
        0 <= i < s.len(),
        s[i].0@ == key,
        forall|j: int| i < j < s.len() ==> (#[trigger] s[j]).0@ != key,
    ensures
        member(s, key) == Some(s[i].1),
    decreases s.len(),
{
    if i < s.len() - 1 {
        let t = s.drop_last();
        assert forall|j: int| i < j < t.len() implies (#[trigger] t[j]).0@ != key by {
            assert(t[j] == s[j]);
        }
        assert(s.last() == s[s.len() - 1]);
        lemma_member_at(t, i, key);
        assert(t[i] == s[i]);
    }
}

/// No entry with `key` means no member under it.
proof fn lemma_member_absent(s: Seq<(String, JsonValue)>, key: Seq<char>)
    requires
        forall|j: int| 0 <= j < s.len() ==> (#[trigger] s[j]).0@ != key,
    ensures
        member(s, key) is None,
    decreases s.len(),
{
    if s.len() > 0 {
        let t = s.drop_last();
        assert forall|j: int| 0 <= j < t.len() implies (#[trigger] t[j]).0@ != key by {
            assert(t[j] == s[j]);
        }
        assert(s.last() == s[s.len() - 1]);
        lemma_member_absent(t, key);
    }
}

/// An object's member under `key` is the value of the entry with that key,
/// wherever the entry stands among the members (the last one, should the key
/// occur more than once).
pub proof fn law_member_is_the_keyed_entry(entries: Vec<(String, JsonValue)>, i: int, key: Seq<char>)
    requires
        0 <= i < entries@.len(),
        entries@[i].0@ == key,
        forall|j: int| i < j < entries@.len() ==> (#[trigger] entries@[j]).0@ != key,
    ensures
        object_member(JsonValue::Object(entries), key) == Some(entries@[i].1),
{
    lemma_member_at(entries@, i, key);
}

/// An object without an entry under `key` has no member under it.
pub proof fn law_member_absent(entries: Vec<(String, JsonValue)>, key: Seq<char>)
    requires
        forall|j: int| 0 <= j < entries@.len() ==> (#[trigger] entries@[j]).0@ != key,
    ensures
        object_member(JsonValue::Object(entries), key) is None,
{
    lemma_member_absent(entries@, key);
}

/// Every integer from 0 to 255 decodes as that byte, and no larger integer
/// decodes as a byte.
pub proof fn law_u8_reads_every_byte(n: u64)
    ensures
        n <= 255 ==> u8_of(JsonValue::Number(JsonNumber::PosInt(n))) == Some(n as u8),
        n > 255 ==> u8_of(JsonValue::Number(JsonNumber::PosInt(n))) is None,
{
}

} // verus!
