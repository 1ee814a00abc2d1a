//! The failure types of the transport, TLS, I/O, JSON and timestamp
//! collaborators, and the calls made on them.

use vstd::prelude::*;
use hyper::Error as HyperError;
use native_tls::Error as TlsError;

verus! {

#[verifier::external_type_specification]
#[verifier::external_body]
pub struct ExHyperError(HyperError);

#[verifier::external_type_specification]
#[verifier::external_body]
pub struct ExTlsError(TlsError);

#[verifier::external_type_specification]
#[verifier::external_body]
pub struct ExIoError(std::io::Error);

#[verifier::external_type_specification]
#[verifier::external_body]
pub struct ExParserError(rustc_serialize::json::ParserError);

#[verifier::external_type_specification]
#[verifier::external_body]
pub struct ExDecoderError(rustc_serialize::json::DecoderError);

#[verifier::external_type_specification]
#[verifier::external_body]
pub struct ExTimestampError(chrono::ParseError);

/// The status line that `hyper::StatusCode` displays for a code: the code and
/// its reason phrase.
pub uninterp spec fn status_line_of(code: int) -> Seq<char>;

/// What `Debug` writes for a string: the text quoted, with escapes.
pub uninterp spec fn debug_quoted(s: Seq<char>) -> Seq<char>;

/// Relies on `hyper::StatusCode::from_u16`, which refuses a code below 100 or
/// from 1000 on, and on its `Display`, which depends on the code alone.
#[verifier::external_body]
pub(crate) fn status_line(code: u16) -> (r: Option<String>)
    ensures
        r is Some <==> 100 <= code < 1000,
        r is Some ==> r->Some_0@ == status_line_of(code as int),
{
    match hyper::StatusCode::from_u16(code) {
        Ok(status) => Some(status.to_string()),
        Err(_) => None,
    }
}

/// Relies on `Debug` for `String`: a function of the text alone.
#[verifier::external_body]
pub(crate) fn quoted(s: &String) -> (r: String)
    ensures
        r@ == debug_quoted(s@),
{
    format!("{:?}", s)
}

/// Relies on `Display` for `hyper::Error`.
#[verifier::external_body]
pub(crate) fn hyper_error_text(e: &hyper::Error) -> String {
    e.to_string()
}

/// Relies on `Display` for `native_tls::Error`.
#[verifier::external_body]
pub(crate) fn tls_error_text(e: &native_tls::Error) -> String {
    e.to_string()
}

/// Relies on `Display` for `std::io::Error`.
#[verifier::external_body]
pub(crate) fn io_error_text(e: &std::io::Error) -> String {
    e.to_string()
}

/// Relies on `Display` for `rustc_serialize::json::ParserError`.
#[verifier::external_body]
pub(crate) fn parser_error_text(e: &rustc_serialize::json::ParserError) -> String {
    e.to_string()
}

/// Relies on `Display` for `rustc_serialize::json::DecoderError`.
#[verifier::external_body]
pub(crate) fn decoder_error_text(e: &rustc_serialize::json::DecoderError) -> String {
    e.to_string()
}

/// Relies on `Display` for `chrono::ParseError`.
#[verifier::external_body]
pub(crate) fn timestamp_error_text(e: &chrono::ParseError) -> String {
    e.to_string()
}

/// Relies on `std::error::Error::description` of `hyper::Error`.
#[allow(deprecated)]
#[verifier::external_body]
pub(crate) fn hyper_error_description(e: &hyper::Error) -> &str {
    std::error::Error::description(e)
}

/// Relies on `std::error::Error::description` of `native_tls::Error`.
#[allow(deprecated)]
#[verifier::external_body]
pub(crate) fn tls_error_description(e: &native_tls::Error) -> &str {
    std::error::Error::description(e)
}

/// Relies on `std::error::Error::description` of `std::io::Error`.
#[allow(deprecated)]
#[verifier::external_body]
pub(crate) fn io_error_description(e: &std::io::Error) -> &str {
    std::error::Error::description(e)
}

/// Relies on `std::error::Error::description` of
/// `rustc_serialize::json::ParserError`, a fixed text.
#[allow(deprecated)]
#[verifier::external_body]
pub(crate) fn parser_error_description(e: &rustc_serialize::json::ParserError) -> (r: &str)
    ensures
        r@ == "failed to parse json"@,
{
    std::error::Error::description(e)
}

/// Relies on `std::error::Error::description` of
/// `rustc_serialize::json::DecoderError`, a fixed text.
#[allow(deprecated)]
#[verifier::external_body]
pub(crate) fn decoder_error_description(e: &rustc_serialize::json::DecoderError) -> (r: &str)
    ensures
        r@ == "decoder error"@,
{
    std::error::Error::description(e)
}

/// Relies on `std::error::Error::description` of `chrono::ParseError`, a
/// fixed text.
#[allow(deprecated)]
#[verifier::external_body]
pub(crate) fn timestamp_error_description(e: &chrono::ParseError) -> (r: &str)
    ensures
        r@ == "parser error, see to_string() for details"@,
{
    std::error::Error::description(e)
}

} // verus!
