//! The errors that the service itself reports in a response body.

use vstd::prelude::*;
use vstd::string::StringExecFns;
use crate::json::JsonObject;
use crate::text::{i32_text, int_decimal};

verus! {

/// One error reported by the service: its numeric code and its message.
/// The code space belongs to the service and is kept as it came.
#[derive(Debug, Clone)]
pub struct TwitterErrorCode {
    /// The error message returned by the service.
    pub message: String,
    /// The numeric error code returned by the service.
    pub code: i32,
}

/// The errors reported in one response, in the order in which they came.
#[derive(Debug, Clone)]
pub struct TwitterErrors {
    /// The reported errors; the first is the primary cause.
    pub errors: Vec<TwitterErrorCode>,
}

/// The error code by which the service says that a rate limit was reached.
pub const RATE_LIMIT_CODE: i32 = 88;

/// `#<code>: <message>`.
pub open spec fn record_text(code: int, message: Seq<char>) -> Seq<char> {
    seq!['#'] + int_decimal(code) + seq![':', ' '] + message
}

/// The records rendered one by one and joined by `,` and a line break, in
/// order, with nothing after the last.
pub open spec fn records_text(records: Seq<TwitterErrorCode>) -> Seq<char>
    decreases records.len(),
{
    if records.len() == 0 {
        Seq::empty()
    } else if records.len() == 1 {
        record_text(records[0].code as int, records[0].message@)
    } else {
        records_text(records.drop_last()) + seq![',', '\n'] + record_text(
            records.last().code as int,
            records.last().message@,
        )
    }
}

/// Whether any of the records carries the rate-limit code.
pub open spec fn has_rate_limit_code(records: Seq<TwitterErrorCode>) -> bool {
    exists|i: int| 0 <= i < records.len() && #[trigger] records[i].code == RATE_LIMIT_CODE
}

/// The record that an object holds: an integer `code` that fits in 32 bits
/// and a string `message`; other keys are ignored.
pub open spec fn record_of(input: JsonObject) -> Option<(i32, Seq<char>)> {
    let code = input.get("code"@);
    let message = input.get("message"@);
    if code is Some && message is Some {
        let n = code->Some_0.int_value();
        let m = message->Some_0.string_value();
        if n is Some && i32::MIN <= n->Some_0 <= i32::MAX && m is Some {
            Some((n->Some_0 as i32, m->Some_0))
        } else {
            None
        }
    } else {
        None
    }
}

impl TwitterErrorCode {
    /// Reads one record from a decoded object; `None` unless the object holds
    /// both fields with their types.
    pub fn from_json(input: &JsonObject) -> (r: Option<TwitterErrorCode>)
        ensures
            r is Some == record_of(*input) is Some,
            r is Some ==> record_of(*input) == Some((r->Some_0.code, r->Some_0.message@)),
    {
        let code = match input.find("code") {
            Some(v) => v,
            None => return None,
        };
        let message = match input.find("message") {
            Some(v) => v,
            None => return None,
        };
        let code = match code.as_i64() {
            Some(n) => {
                if n < i32::MIN as i64 || n > i32::MAX as i64 {
                    return None;
                }
                n as i32
            },
            None => return None,
        };
        let message = match message.as_string() {
            Some(s) => s.clone(),
            None => return None,
        };
        Some(TwitterErrorCode { message, code })
    }

    /// The one-line rendering of this record, `#<code>: <message>`.
    pub fn to_string(&self) -> (r: String)
        ensures
            r@ == record_text(self.code as int, self.message@),
    {
        let mut r = String::new();
        r.append("#");
        let digits = i32_text(self.code);
        r.append(digits.as_str());
        r.append(": ");
        r.append(self.message.as_str());
        proof {
            reveal_strlit("#");
            reveal_strlit(": ");
            assert(r@ =~= record_text(self.code as int, self.message@));
        }
        r
    }
}

impl TwitterErrors {
    /// Reads a collection from the objects of a response's error list, in
    /// order; `None` unless every object holds a record.
    pub fn from_json_records(records: &Vec<JsonObject>) -> (r: Option<TwitterErrors>)
        ensures
            r is Some <==> forall|i: int| 0 <= i < records@.len() ==> #[trigger] record_of(records@[i]) is Some,
            r is Some ==> r->Some_0.errors@.len() == records@.len() && forall|i: int|
                0 <= i < records@.len() ==> record_of(records@[i]) == Some(
                    (#[trigger] r->Some_0.errors@[i].code, r->Some_0.errors@[i].message@),
                ),
    {
        let mut errors: Vec<TwitterErrorCode> = Vec::new();
        let mut i: usize = 0;
        while i < records.len()
            invariant
                i <= records@.len(),
                errors@.len() == i,
                forall|j: int| 0 <= j < i ==> #[trigger] record_of(records@[j]) is Some,
                forall|j: int|
                    0 <= j < i ==> record_of(records@[j]) == Some(
                        (#[trigger] errors@[j].code, errors@[j].message@),
                    ),
            decreases records@.len() - i,
        {
            match TwitterErrorCode::from_json(&records[i]) {
                Some(rec) => errors.push(rec),
                None => return None,
            }
            i = i + 1;
        }
        Some(TwitterErrors { errors })
    }

    /// The rendering of every record, joined by `,` and a line break in
    /// their order.
    pub fn to_string(&self) -> (r: String)
        ensures
            r@ == records_text(self.errors@),
    {
        let mut r = String::new();
        let mut i: usize = 0;
        while i < self.errors.len()
            invariant
                i <= self.errors@.len(),
                r@ == records_text(self.errors@.subrange(0, i as int)),
            decreases self.errors@.len() - i,
        {
            let part = self.errors[i].to_string();
            proof {
                let prefix = self.errors@.subrange(0, i as int + 1);
                assert(prefix.drop_last() =~= self.errors@.subrange(0, i as int));
            }
            if i > 0 {
                r.append(",\n");
                proof {
                    reveal_strlit(",\n");
                }
            }
            r.append(part.as_str());
            i = i + 1;
        }
        assert(self.errors@.subrange(0, self.errors@.len() as int) =~= self.errors@);
        r
    }

    /// Whether the service reported that a rate limit was reached.
    pub fn is_rate_limited(&self) -> (r: bool)
        ensures
            r == has_rate_limit_code(self.errors@),
    {
        let mut i: usize = 0;
        while i < self.errors.len()
            invariant
                i <= self.errors@.len(),
                forall|j: int| 0 <= j < i ==> #[trigger] self.errors@[j].code != RATE_LIMIT_CODE,
            decreases self.errors@.len() - i,
        {
            if self.errors[i].code == RATE_LIMIT_CODE {
                return true;
            }
            i = i + 1;
        }
        false
    }
}

} // verus!
