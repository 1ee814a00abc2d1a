//! The one error type of the client: every failure, from the service or from
//! a lower-level collaborator, is one variant of `Error`.

use vstd::prelude::*;
use vstd::string::StringExecFns;
use crate::media::MediaError as MediaFailure;
use crate::outside::{
    debug_quoted, decoder_error_description, decoder_error_text, hyper_error_description,
    hyper_error_text, io_error_description, io_error_text, parser_error_description,
    parser_error_text, quoted, status_line, status_line_of, timestamp_error_description,
    timestamp_error_text, tls_error_description, tls_error_text,
};
use crate::text::{i32_text, int_decimal, nat_decimal};
use crate::twitter::{has_rate_limit_code, records_text, TwitterErrors};

verus! {

/// A failure that can occur while talking to the service.
#[derive(Debug)]
pub enum Error {
    /// A URL given to a shortcut function did not match the method called.
    BadUrl,
    /// The response was shaped otherwise than expected: what was expected,
    /// and the input concerned, if any.
    InvalidResponse(&'static str, Option<String>),
    /// The response lacked a required field, named here.
    MissingValue(&'static str),
    /// A single-shot operation was polled after it had already completed.
    FutureAlreadyCompleted,
    /// The service rejected the call with these errors.
    TwitterError(TwitterErrors),
    /// A rate limit was reached; the next window opens at this Unix time (UTC).
    RateLimit(i32),
    /// An uploaded file failed in post-processing.
    MediaError(MediaFailure),
    /// The response status was an error and the body held no error records.
    BadStatus(u16),
    /// The transport failed.
    NetError(hyper::Error),
    /// The TLS implementation failed.
    TlsError(native_tls::Error),
    /// Reading or writing a stream failed.
    IOError(std::io::Error),
    /// The response was not valid JSON.
    JSONError(rustc_serialize::json::ParserError),
    /// The JSON of the response did not decode into the expected structure.
    DecodeError(rustc_serialize::json::DecoderError),
    /// A timestamp from the service did not parse.
    TimestampParseError(chrono::ParseError),
}

/// The kinds of lower-level failure that convert into an `Error`.
#[derive(Debug, Clone, Copy, PartialEq, Eq, Structural)]
pub enum FailureSource {
    Transport,
    Security,
    Io,
    JsonParse,
    JsonDecode,
    Timestamp,
}

/// A reference to the lower-level failure that an `Error` wraps.
#[derive(Debug)]
pub enum Cause<'a> {
    Net(&'a hyper::Error),
    Tls(&'a native_tls::Error),
    Io(&'a std::io::Error),
    Json(&'a rustc_serialize::json::ParserError),
    Decode(&'a rustc_serialize::json::DecoderError),
    Timestamp(&'a chrono::ParseError),
}

/// What `Debug` writes for an optional string.
pub open spec fn debug_option(s: Option<String>) -> Seq<char> {
    match s {
        Some(t) => "Some("@ + debug_quoted(t@) + ")"@,
        None => "None"@,
    }
}

/// How a status code is shown: hyper's status line where hyper takes the
/// code, else the number.
pub open spec fn status_text(code: u16) -> Seq<char> {
    if 100 <= code < 1000 {
        status_line_of(code as int)
    } else {
        nat_decimal(code as nat)
    }
}

/// The error that a failed response is classified as, from its status, the
/// error records its body decoded into (if it did), the rate-limit reset
/// time from its headers (if sent), and what the caller expected.
pub open spec fn classification(
    status: u16,
    body: Option<TwitterErrors>,
    rate_limit_reset: Option<i32>,
    context: &'static str,
    raw: Option<String>,
) -> Error {
    if body is Some && body->Some_0.errors@.len() > 0 {
        if has_rate_limit_code(body->Some_0.errors@) && rate_limit_reset is Some {
            Error::RateLimit(rate_limit_reset->Some_0)
        } else {
            Error::TwitterError(body->Some_0)
        }
    } else if !(200 <= status < 300) {
        Error::BadStatus(status)
    } else {
        Error::InvalidResponse(context, raw)
    }
}

impl Error {
    /// The kind of lower-level failure this error wraps, if it wraps one.
    pub open spec fn source_kind(self) -> Option<FailureSource> {
        match self {
            Error::NetError(_) => Some(FailureSource::Transport),
            Error::TlsError(_) => Some(FailureSource::Security),
            Error::IOError(_) => Some(FailureSource::Io),
            Error::JSONError(_) => Some(FailureSource::JsonParse),
            Error::DecodeError(_) => Some(FailureSource::JsonDecode),
            Error::TimestampParseError(_) => Some(FailureSource::Timestamp),
            _ => None,
        }
    }

    /// The start of the one-line rendering.
    pub open spec fn display_prefix(self) -> Seq<char> {
        match self {
            Error::BadUrl => "URL given did not match API method"@,
            Error::InvalidResponse(_, _) => "Invalid response received: "@,
            Error::MissingValue(_) => "Value missing from response: "@,
            Error::FutureAlreadyCompleted => "Future has already been completed"@,
            Error::TwitterError(_) => "Error(s) returned from Twitter: "@,
            Error::RateLimit(_) => "Rate limit reached, hold until "@,
            Error::MediaError(_) => "Error processing media: "@,
            Error::BadStatus(_) => "Error status received: "@,
            Error::NetError(_) => "Network error: "@,
            Error::TlsError(_) => "TLS error: "@,
            Error::IOError(_) => "IO error: "@,
            Error::JSONError(_) => "JSON parse Error: "@,
            Error::DecodeError(_) => "JSON decode error: "@,
            Error::TimestampParseError(_) => "Error parsing timestamp: "@,
        }
    }

    /// The whole one-line rendering, for the errors that wrap no lower-level
    /// failure: the prefix and the details it names.
    pub open spec fn display_text(self) -> Option<Seq<char>> {
        match self {
            Error::BadUrl => Some(self.display_prefix()),
            Error::InvalidResponse(what, raw) => Some(
                self.display_prefix() + what@ + " ("@ + debug_option(raw) + ")"@,
            ),
            Error::MissingValue(field) => Some(self.display_prefix() + field@),
            Error::FutureAlreadyCompleted => Some(self.display_prefix()),
            Error::TwitterError(errs) => Some(self.display_prefix() + records_text(errs.errors@)),
            Error::RateLimit(ts) => Some(self.display_prefix() + int_decimal(ts as int)),
            Error::MediaError(m) => Some(self.display_prefix() + m.message@),
            Error::BadStatus(code) => Some(self.display_prefix() + status_text(code)),
            _ => None,
        }
    }

    /// The short description of the variants that wrap no lower-level failure.
    pub open spec fn description_text(self) -> Option<Seq<char>> {
        match self {
            Error::BadUrl => Some("URL given did not match API method"@),
            Error::InvalidResponse(_, _) => Some("Invalid response received"@),
            Error::MissingValue(_) => Some("Value missing from response"@),
            Error::FutureAlreadyCompleted => Some("Future has already been completed"@),
            Error::TwitterError(_) => Some("Error returned from Twitter"@),
            Error::RateLimit(_) => Some("Rate limit for method reached"@),
            Error::MediaError(_) => Some("Error processing media"@),
            Error::BadStatus(_) => Some("Response included error code"@),
            Error::JSONError(_) => Some("failed to parse json"@),
            Error::DecodeError(_) => Some("decoder error"@),
            Error::TimestampParseError(_) => Some("parser error, see to_string() for details"@),
            _ => None,
        }
    }

    /// Classifies a failed response; see `classification`. Error records in
    /// the body come first, a rate limit among them before the rest; then an
    /// error status; then the caller's own account of what was expected.
    pub fn from_response(
        status: u16,
        body: Option<TwitterErrors>,
        rate_limit_reset: Option<i32>,
        context: &'static str,
        raw: Option<String>,
    ) -> (r: Error)
        ensures
            r == classification(status, body, rate_limit_reset, context, raw),
    {
        let records_present = match &body {
            Some(errs) => errs.errors.len() > 0,
            None => false,
        };
        if records_present {
            let errs = body.unwrap();
            if errs.is_rate_limited() {
                if let Some(ts) = rate_limit_reset {
                    return Error::RateLimit(ts);
                }
            }
            Error::TwitterError(errs)
        } else if status < 200 || status >= 300 {
            Error::BadStatus(status)
        } else {
            Error::InvalidResponse(context, raw)
        }
    }

    /// The one-line rendering: the variant's prefix, then its details; for a
    /// wrapped lower-level failure, the text that failure displays.
    pub fn to_string(&self) -> (r: String)
        ensures
            self.display_prefix().is_prefix_of(r@),
            self.display_text() is Some ==> r@ == self.display_text()->Some_0,
    {
        let mut r = String::new();
        match self {
            Error::BadUrl => r.append("URL given did not match API method"),
            Error::InvalidResponse(what, raw) => {
                r.append("Invalid response received: ");
                r.append(what);
                r.append(" (");
                match raw {
                    Some(t) => {
                        r.append("Some(");
                        let q = quoted(t);
                        r.append(q.as_str());
                        r.append(")");
                    },
                    None => r.append("None"),
                }
                r.append(")");
            },
            Error::MissingValue(field) => {
                r.append("Value missing from response: ");
                r.append(field);
            },
            Error::FutureAlreadyCompleted => r.append("Future has already been completed"),
            Error::TwitterError(errs) => {
                r.append("Error(s) returned from Twitter: ");
                let t = errs.to_string();
                r.append(t.as_str());
            },
            Error::RateLimit(ts) => {
                r.append("Rate limit reached, hold until ");
                let t = i32_text(*ts);
                r.append(t.as_str());
            },
            Error::MediaError(m) => {
                r.append("Error processing media: ");
                r.append(m.message.as_str());
            },
            Error::BadStatus(code) => {
                r.append("Error status received: ");
                let t = match status_line(*code) {
                    Some(line) => line,
                    None => i32_text(*code as i32),
                };
                proof {
                    if !(100 <= *code < 1000) {
                        assert(int_decimal(*code as i32 as int) == nat_decimal(*code as nat));
                    }
                }
                r.append(t.as_str());
            },
            Error::NetError(e) => {
                r.append("Network error: ");
                let t = hyper_error_text(e);
                r.append(t.as_str());
            },
            Error::TlsError(e) => {
                r.append("TLS error: ");
                let t = tls_error_text(e);
                r.append(t.as_str());
            },
            Error::IOError(e) => {
                r.append("IO error: ");
                let t = io_error_text(e);
                r.append(t.as_str());
            },
            Error::JSONError(e) => {
                r.append("JSON parse Error: ");
                let t = parser_error_text(e);
                r.append(t.as_str());
            },
            Error::DecodeError(e) => {
                r.append("JSON decode error: ");
                let t = decoder_error_text(e);
                r.append(t.as_str());
            },
            Error::TimestampParseError(e) => {
                r.append("Error parsing timestamp: ");
                let t = timestamp_error_text(e);
                r.append(t.as_str());
            },
        }
        assert(self.display_prefix().is_prefix_of(r@));
        proof {
            if self.display_text() is Some {
                assert(r@ =~= self.display_text()->Some_0);
            }
        }
        r
    }

    /// A short description of the error: fixed for each variant that wraps
    /// no lower-level failure, else the wrapped failure's own.
    pub fn description(&self) -> (r: &str)
        ensures
            self.description_text() is Some ==> r@ == self.description_text()->Some_0,
    {
        match self {
            Error::BadUrl => "URL given did not match API method",
            Error::InvalidResponse(_, _) => "Invalid response received",
            Error::MissingValue(_) => "Value missing from response",
            Error::FutureAlreadyCompleted => "Future has already been completed",
            Error::TwitterError(_) => "Error returned from Twitter",
            Error::RateLimit(_) => "Rate limit for method reached",
            Error::MediaError(_) => "Error processing media",
            Error::BadStatus(_) => "Response included error code",
            Error::NetError(e) => hyper_error_description(e),
            Error::TlsError(e) => tls_error_description(e),
            Error::IOError(e) => io_error_description(e),
            Error::JSONError(e) => parser_error_description(e),
            Error::DecodeError(e) => decoder_error_description(e),
            Error::TimestampParseError(e) => timestamp_error_description(e),
        }
    }

    /// The kind of lower-level failure this error wraps, if it wraps one.
    pub fn failure_source(&self) -> (r: Option<FailureSource>)
        ensures
            r == self.source_kind(),
    {
        match self {
            Error::NetError(_) => Some(FailureSource::Transport),
            Error::TlsError(_) => Some(FailureSource::Security),
            Error::IOError(_) => Some(FailureSource::Io),
            Error::JSONError(_) => Some(FailureSource::JsonParse),
            Error::DecodeError(_) => Some(FailureSource::JsonDecode),
            Error::TimestampParseError(_) => Some(FailureSource::Timestamp),
            _ => None,
        }
    }

    /// The lower-level failure this error wraps: present exactly for the
    /// variants that wrap one, and that very value.
    pub fn cause(&self) -> (r: Option<Cause<'_>>)
        ensures
            r is Some == self.source_kind() is Some,
            self matches Error::NetError(e) ==> r == Some(Cause::Net(&e)),
            self matches Error::TlsError(e) ==> r == Some(Cause::Tls(&e)),
            self matches Error::IOError(e) ==> r == Some(Cause::Io(&e)),
            self matches Error::JSONError(e) ==> r == Some(Cause::Json(&e)),
            self matches Error::DecodeError(e) ==> r == Some(Cause::Decode(&e)),
            self matches Error::TimestampParseError(e) ==> r == Some(Cause::Timestamp(&e)),
    {
        match self {
            Error::NetError(e) => Some(Cause::Net(e)),
            Error::TlsError(e) => Some(Cause::Tls(e)),
            Error::IOError(e) => Some(Cause::Io(e)),
            Error::JSONError(e) => Some(Cause::Json(e)),
            Error::DecodeError(e) => Some(Cause::Decode(e)),
            Error::TimestampParseError(e) => Some(Cause::Timestamp(e)),
            _ => None,
        }
    }
}

impl From<hyper::Error> for Error {
    fn from(err: hyper::Error) -> Error {
        Error::NetError(err)
    }
}

impl vstd::std_specs::convert::FromSpecImpl<hyper::Error> for Error {
    open spec fn obeys_from_spec() -> bool {
        true
    }

    open spec fn from_spec(v: hyper::Error) -> Error {
        Error::NetError(v)
    }
}

impl From<native_tls::Error> for Error {
    fn from(err: native_tls::Error) -> Error {
        Error::TlsError(err)
    }
}

impl vstd::std_specs::convert::FromSpecImpl<native_tls::Error> for Error {
    open spec fn obeys_from_spec() -> bool {
        true
    }

    open spec fn from_spec(v: native_tls::Error) -> Error {
        Error::TlsError(v)
    }
}

impl From<std::io::Error> for Error {
    fn from(err: std::io::Error) -> Error {
        Error::IOError(err)
    }
}

impl vstd::std_specs::convert::FromSpecImpl<std::io::Error> for Error {
    open spec fn obeys_from_spec() -> bool {
        true
    }

    open spec fn from_spec(v: std::io::Error) -> Error {
        Error::IOError(v)
    }
}

impl From<rustc_serialize::json::ParserError> for Error {
    fn from(err: rustc_serialize::json::ParserError) -> Error {
        Error::JSONError(err)
    }
}

impl vstd::std_specs::convert::FromSpecImpl<rustc_serialize::json::ParserError> for Error {
    open spec fn obeys_from_spec() -> bool {
        true
    }

    open spec fn from_spec(v: rustc_serialize::json::ParserError) -> Error {
        Error::JSONError(v)
    }
}

impl From<rustc_serialize::json::DecoderError> for Error {
    fn from(err: rustc_serialize::json::DecoderError) -> Error {
        Error::DecodeError(err)
    }
}

impl vstd::std_specs::convert::FromSpecImpl<rustc_serialize::json::DecoderError> for Error {
    open spec fn obeys_from_spec() -> bool {
        true
    }

    open spec fn from_spec(v: rustc_serialize::json::DecoderError) -> Error {
        Error::DecodeError(v)
    }
}

impl From<chrono::ParseError> for Error {
    fn from(err: chrono::ParseError) -> Error {
        Error::TimestampParseError(err)
    }
}

impl vstd::std_specs::convert::FromSpecImpl<chrono::ParseError> for Error {
    open spec fn obeys_from_spec() -> bool {
        true
    }

    open spec fn from_spec(v: chrono::ParseError) -> Error {
        Error::TimestampParseError(v)
    }
}

/// Every lower-level failure converts into the variant of its own kind and
/// keeps the failure itself as the payload; the six kinds land in six
/// different variants.
pub proof fn lemma_conversions_distinct(
    net: hyper::Error,
    tls: native_tls::Error,
    io: std::io::Error,
    json: rustc_serialize::json::ParserError,
    decode: rustc_serialize::json::DecoderError,
    timestamp: chrono::ParseError,
)
    ensures
        <Error as vstd::std_specs::convert::FromSpec<hyper::Error>>::from_spec(net)
            == Error::NetError(net),
        <Error as vstd::std_specs::convert::FromSpec<native_tls::Error>>::from_spec(tls)
            == Error::TlsError(tls),
        <Error as vstd::std_specs::convert::FromSpec<std::io::Error>>::from_spec(io)
            == Error::IOError(io),
        <Error as vstd::std_specs::convert::FromSpec<rustc_serialize::json::ParserError>>::from_spec(json)
            == Error::JSONError(json),
        <Error as vstd::std_specs::convert::FromSpec<rustc_serialize::json::DecoderError>>::from_spec(decode)
            == Error::DecodeError(decode),
        <Error as vstd::std_specs::convert::FromSpec<chrono::ParseError>>::from_spec(timestamp)
            == Error::TimestampParseError(timestamp),
        ({
            let kinds = seq![
                Error::NetError(net).source_kind(),
                Error::TlsError(tls).source_kind(),
                Error::IOError(io).source_kind(),
                Error::JSONError(json).source_kind(),
                Error::DecodeError(decode).source_kind(),
                Error::TimestampParseError(timestamp).source_kind(),
            ];
            forall|i: int, j: int|
                0 <= i < 6 && 0 <= j < 6 && i != j ==> #[trigger] kinds[i] is Some && kinds[i] != #[trigger] kinds[j]
        }),
{
}

} // verus!
