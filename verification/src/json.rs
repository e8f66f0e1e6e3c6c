//! A JSON document as the cover look-ups read it: objects keep their fields in
//! order, numbers keep their value when it is an `i64` (the only way they are
//! read).
use vstd::prelude::*;

verus! {

pub enum JsonValue {
    Null,
    Bool(bool),
    /// A number, with its value when it is a whole number that fits in `i64`.
    Number(Option<i64>),
    Str(String),
    Array(Vec<JsonValue>),
    Object(Vec<(String, JsonValue)>),
}

/// The index of the first field named `key`, from `i` on.
pub open spec fn field_index(fields: Seq<(String, JsonValue)>, key: Seq<char>, i: int) -> Option<int>
    decreases fields.len() - i,
{
    if i < 0 || i >= fields.len() {
        None
    } else if fields[i].0@ == key {
        Some(i)
    } else {
        field_index(fields, key, i + 1)
    }
}

/// The value of field `key` of an object (`serde_json::Value::get` with a
/// string key); `None` for a missing field or a value that is no object.
pub open spec fn json_get(v: JsonValue, key: Seq<char>) -> Option<JsonValue> {
    match v {
        JsonValue::Object(fields) => match field_index(fields@, key, 0) {
            Some(i) => Some(fields@[i].1),
            None => None,
        },
        _ => None,
    }
}

/// Element `i` of an array (`Value::get` with an index).
pub open spec fn json_at(v: JsonValue, i: int) -> Option<JsonValue> {
    match v {
        JsonValue::Array(items) => if 0 <= i < items@.len() {
            Some(items@[i])
        } else {
            None
        },
        _ => None,
    }
}

pub open spec fn json_str(v: JsonValue) -> Option<Seq<char>> {
    match v {
        JsonValue::Str(s) => Some(s@),
        _ => None,
    }
}

pub open spec fn json_i64(v: JsonValue) -> Option<i64> {
    match v {
        JsonValue::Number(n) => n,
        _ => None,
    }
}

pub open spec fn json_len(v: JsonValue) -> Option<nat> {
    match v {
        JsonValue::Array(items) => Some(items@.len()),
        _ => None,
    }
}

/// A field reached through `get` calls from an optional value.
pub open spec fn opt_get(v: Option<JsonValue>, key: Seq<char>) -> Option<JsonValue> {
    match v {
        Some(x) => json_get(x, key),
        None => None,
    }
}

pub open spec fn opt_at(v: Option<JsonValue>, i: int) -> Option<JsonValue> {
    match v {
        Some(x) => json_at(x, i),
        None => None,
    }
}

pub open spec fn opt_str(v: Option<JsonValue>) -> Option<Seq<char>> {
    match v {
        Some(x) => json_str(x),
        None => None,
    }
}

pub open spec fn opt_i64(v: Option<JsonValue>) -> Option<i64> {
    match v {
        Some(x) => json_i64(x),
        None => None,
    }
}

pub open spec fn opt_ref_view(r: Option<&JsonValue>) -> Option<JsonValue> {
    match r {
        Some(x) => Some(*x),
        None => None,
    }
}

impl JsonValue {
    pub fn get(&self, key: &str) -> (r: Option<&JsonValue>)
        ensures
            opt_ref_view(r) == json_get(*self, key@),
    {
        match self {
            JsonValue::Object(fields) => {
                let n = fields.len();
                let mut i: usize = 0;
                while i < n
                    invariant
                        n == fields@.len(),
                        i <= n,
                        *self == (JsonValue::Object(*fields)),
                        field_index(fields@, key@, 0) == field_index(fields@, key@, i as int),
                    decreases n - i,
                {
                    let name = crate::text::chars_of(fields[i].0.as_str());
                    let k = crate::text::chars_of(key);
                    if crate::text::chars_eq(name.as_slice(), k.as_slice()) {
                        return Some(&fields[i].1);
                    }
                    i = i + 1;
                }
                None
            },
            _ => None,
        }
    }

    pub fn at(&self, i: usize) -> (r: Option<&JsonValue>)
        ensures
            opt_ref_view(r) == json_at(*self, i as int),
    {
        match self {
            JsonValue::Array(items) => if i < items.len() {
                Some(&items[i])
            } else {
                None
            },
            _ => None,
        }
    }

    pub fn as_str(&self) -> (r: Option<&String>)
        ensures
            match r {
                Some(s) => json_str(*self) == Some(s@),
                None => json_str(*self) is None,
            },
    {
        match self {
            JsonValue::Str(s) => Some(s),
            _ => None,
        }
    }

    pub fn as_i64(&self) -> (r: Option<i64>)
        ensures
            r == json_i64(*self),
    {
        match self {
            JsonValue::Number(n) => *n,
            _ => None,
        }
    }

    /// The number of elements of an array.
    pub fn array_len(&self) -> (r: Option<usize>)
        ensures
            match r {
                Some(n) => json_len(*self) == Some(n as nat),
                None => json_len(*self) is None,
            },
    {
        match self {
            JsonValue::Array(items) => Some(items.len()),
            _ => None,
        }
    }
}

/// `get` on an optional value.
pub fn get_opt<'a>(v: Option<&'a JsonValue>, key: &str) -> (r: Option<&'a JsonValue>)
    ensures
        opt_ref_view(r) == opt_get(opt_ref_view(v), key@),
{
    match v {
        Some(x) => x.get(key),
        None => None,
    }
}

pub fn at_opt<'a>(v: Option<&'a JsonValue>, i: usize) -> (r: Option<&'a JsonValue>)
    ensures
        opt_ref_view(r) == opt_at(opt_ref_view(v), i as int),
{
    match v {
        Some(x) => x.at(i),
        None => None,
    }
}

pub fn str_opt(v: Option<&JsonValue>) -> (r: Option<String>)
    ensures
        crate::encoding::opt_chars(r) == opt_str(opt_ref_view(v)),
{
    match v {
        Some(x) => match x.as_str() {
            Some(s) => Some(s.clone()),
            None => None,
        },
        None => None,
    }
}

pub fn i64_opt(v: Option<&JsonValue>) -> (r: Option<i64>)
    ensures
        r == opt_i64(opt_ref_view(v)),
{
    match v {
        Some(x) => x.as_i64(),
        None => None,
    }
}

} // verus!
