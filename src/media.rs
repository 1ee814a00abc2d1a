//! The failure of an uploaded file in asynchronous post-processing.

use vstd::prelude::*;
use crate::error::Error;
use crate::json::JsonObject;

verus! {

/// A media-processing failure: a numeric code, a short name and the full
/// message.
#[derive(Debug, Clone)]
pub struct MediaError {
    /// A numeric error code assigned to the error.
    pub code: i32,
    /// A short name given to the error.
    pub name: String,
    /// The full text of the error message.
    pub message: String,
}

/// The code, name and message of a media-processing failure, when the object
/// holds all three with their types: an integer code that fits in 32 bits,
/// a string name and a string message.
pub open spec fn media_fields(input: JsonObject) -> Option<(i32, Seq<char>, Seq<char>)> {
    let code = input.get("code"@);
    let name = input.get("name"@);
    let message = input.get("message"@);
    if code is Some && name is Some && message is Some {
        let n = code->Some_0.int_value();
        let nm = name->Some_0.string_value();
        let msg = message->Some_0.string_value();
        if n is Some && i32::MIN <= n->Some_0 <= i32::MAX && nm is Some && msg is Some {
            Some((n->Some_0 as i32, nm->Some_0, msg->Some_0))
        } else {
            None
        }
    } else {
        None
    }
}

impl MediaError {
    /// Reads a media-processing failure from a decoded object. The fields
    /// are checked for presence in the order code, name, message, and the
    /// first that is absent is named in `MissingValue`; a field of the wrong
    /// type gives `InvalidResponse`.
    pub fn from_json(input: &JsonObject) -> (r: Result<MediaError, Error>)
        ensures
            input.get("code"@) is None ==> r == Err::<MediaError, Error>(Error::MissingValue("code")),
            input.get("code"@) is Some && input.get("name"@) is None ==> r == Err::<
                MediaError,
                Error,
            >(Error::MissingValue("name")),
            input.get("code"@) is Some && input.get("name"@) is Some && input.get("message"@) is None
                ==> r == Err::<MediaError, Error>(Error::MissingValue("message")),
            input.get("code"@) is Some && input.get("name"@) is Some && input.get("message"@) is Some
                ==> (r is Ok <==> media_fields(*input) is Some) && (r is Err ==> r->Err_0 is InvalidResponse),
            r is Ok ==> media_fields(*input) == Some(
                (r->Ok_0.code, r->Ok_0.name@, r->Ok_0.message@),
            ),
    {
        let code = match input.find("code") {
            Some(v) => v,
            None => return Err(Error::MissingValue("code")),
        };
        let name = match input.find("name") {
            Some(v) => v,
            None => return Err(Error::MissingValue("name")),
        };
        let message = match input.find("message") {
            Some(v) => v,
            None => return Err(Error::MissingValue("message")),
        };
        let code = match code.as_i64() {
            Some(n) => {
                if n < i32::MIN as i64 || n > i32::MAX as i64 {
                    return Err(Error::InvalidResponse("media error code is not a 32-bit integer", None));
                }
                n as i32
            },
            None => return Err(Error::InvalidResponse("media error code is not an integer", None)),
        };
        let name = match name.as_string() {
            Some(s) => s.clone(),
            None => return Err(Error::InvalidResponse("media error name is not a string", None)),
        };
        let message = match message.as_string() {
            Some(s) => s.clone(),
            None => return Err(Error::InvalidResponse("media error message is not a string", None)),
        };
        Ok(MediaError { code, name, message })
    }
}

/// An object that holds an integer code, a string name and a string message
/// reads back as exactly that code, name and message.
pub proof fn lemma_media_round_trip(input: JsonObject, code: i32, name: Seq<char>, message: Seq<char>)
    requires
        input.get("code"@) is Some && input.get("code"@)->Some_0.int_value() == Some(code as i64),
        input.get("name"@) is Some && input.get("name"@)->Some_0.string_value() == Some(name),
        input.get("message"@) is Some && input.get("message"@)->Some_0.string_value() == Some(message),
    ensures
        media_fields(input) == Some((code, name, message)),
{
}

} // verus!
