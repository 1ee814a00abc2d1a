//! A decoded JSON value, as the JSON decoder hands it over, with the lookups
//! that the parsers of this crate make on it.

use vstd::prelude::*;
use vstd::string::StringExecFns;

verus! {

/// A value under a key of a decoded JSON object. A floating-point number, an
/// array and a nested object are kept as their kind alone: nothing here reads
/// inside them.
#[derive(Debug, Clone)]
pub enum JsonValue {
    I64(i64),
    U64(u64),
    Float,
    String(String),
    Boolean(bool),
    Array,
    Object,
    Null,
}

/// A decoded JSON object: its keys, and the value of each key at the same
/// index. A document that is no object has no entries.
#[derive(Debug, Clone)]
pub struct JsonObject {
    pub keys: Vec<String>,
    pub values: Vec<JsonValue>,
}

/// The value of the first entry under `key`, if any; an entry is a key with
/// the value at the same index.
pub open spec fn entries_get(keys: Seq<String>, values: Seq<JsonValue>, key: Seq<char>) -> Option<JsonValue>
    decreases keys.len(),
{
    if keys.len() == 0 || values.len() == 0 {
        None
    } else if keys[0]@ == key {
        Some(values[0])
    } else {
        entries_get(keys.drop_first(), values.drop_first(), key)
    }
}

impl JsonObject {
    /// The value under `key`.
    pub open spec fn get(self, key: Seq<char>) -> Option<JsonValue> {
        entries_get(self.keys@, self.values@, key)
    }

    /// Looks `key` up: the value of the first entry under it.
    pub fn find(&self, key: &str) -> (r: Option<&JsonValue>)
        ensures
            r is Some == self.get(key@) is Some,
            r is Some ==> *r->Some_0 == self.get(key@)->Some_0,
    {
        let keys = &self.keys;
        let values = &self.values;
        {
            {
                let k = String::from_str(key);
                let mut i: usize = 0;
                assert(keys@.subrange(0, keys@.len() as int) =~= keys@);
                assert(values@.subrange(0, values@.len() as int) =~= values@);
                while i < keys.len() && i < values.len()
                    invariant
                        i <= keys@.len(),
                        i <= values@.len(),
                        k@ == key@,
                        keys@ == self.keys@,
                        values@ == self.values@,
                        entries_get(keys@, values@, key@) == entries_get(
                            keys@.subrange(i as int, keys@.len() as int),
                            values@.subrange(i as int, values@.len() as int),
                            key@,
                        ),
                    decreases keys@.len() - i,
                {
                    let ghost ks = keys@.subrange(i as int, keys@.len() as int);
                    let ghost vs = values@.subrange(i as int, values@.len() as int);
                    assert(ks.drop_first() =~= keys@.subrange(i as int + 1, keys@.len() as int));
                    assert(vs.drop_first() =~= values@.subrange(i as int + 1, values@.len() as int));
                    assert(ks[0] == keys@[i as int] && vs[0] == values@[i as int]);
                    if keys[i] == k {
                        return Some(&values[i]);
                    }
                    i = i + 1;
                }
                assert(keys@.subrange(i as int, keys@.len() as int).len() == 0
                    || values@.subrange(i as int, values@.len() as int).len() == 0);
                None
            }
        }
    }
}

impl JsonValue {
    /// The value as a signed 64-bit integer: an integer that fits below
    /// `i64::MAX` when it came unsigned.
    pub open spec fn int_value(self) -> Option<i64> {
        match self {
            JsonValue::I64(n) => Some(n),
            JsonValue::U64(n) => if n >= i64::MAX as u64 {
                None
            } else {
                Some(n as i64)
            },
            _ => None,
        }
    }

    /// The text of a string value.
    pub open spec fn string_value(self) -> Option<Seq<char>> {
        match self {
            JsonValue::String(s) => Some(s@),
            _ => None,
        }
    }

    /// The value as a signed 64-bit integer, as `int_value` states.
    pub fn as_i64(&self) -> (r: Option<i64>)
        ensures
            r == self.int_value(),
    {
        match self {
            JsonValue::I64(n) => Some(*n),
            JsonValue::U64(n) => if *n >= i64::MAX as u64 {
                None
            } else {
                Some(*n as i64)
            },
            _ => None,
        }
    }

    /// The text of a string value.
    pub fn as_string(&self) -> (r: Option<&String>)
        ensures
            r is Some == self.string_value() is Some,
            r is Some ==> r->Some_0@ == self.string_value()->Some_0,
    {
        match self {
            JsonValue::String(s) => Some(s),
            _ => None,
        }
    }
}

} // verus!
