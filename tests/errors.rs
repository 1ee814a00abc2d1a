use egg_mode_error::error::{Cause, Error, FailureSource};
use egg_mode_error::json::{JsonObject, JsonValue};
use egg_mode_error::media::MediaError;
use egg_mode_error::single_shot::SingleShot;
use egg_mode_error::twitter::{TwitterErrorCode, TwitterErrors};

fn record(code: i32, message: &str) -> TwitterErrorCode {
    TwitterErrorCode { code, message: message.to_string() }
}

fn object(entries: Vec<(&str, JsonValue)>) -> JsonObject {
    let mut keys = Vec::new();
    let mut values = Vec::new();
    for (k, v) in entries {
        keys.push(k.to_string());
        values.push(v);
    }
    JsonObject { keys, values }
}

#[test]
fn renders_two_records_in_order() {
    let errs = TwitterErrors {
        errors: vec![
            record(34, "Sorry, that page does not exist"),
            record(136, "You have been blocked"),
        ],
    };
    assert_eq!(
        errs.to_string(),
        "#34: Sorry, that page does not exist,\n#136: You have been blocked"
    );
}

#[test]
fn renders_empty_and_single_collections() {
    assert_eq!(TwitterErrors { errors: vec![] }.to_string(), "");
    assert_eq!(TwitterErrors { errors: vec![record(-5, "odd")] }.to_string(), "#-5: odd");
    assert_eq!(record(0, "").to_string(), "#0: ");
}

#[test]
fn rate_limit_code_with_reset_header_is_rate_limited() {
    let body = TwitterErrors { errors: vec![record(88, "Rate limit exceeded")] };
    let r = Error::from_response(429, Some(body), Some(1609459200), "ctx", None);
    assert!(matches!(r, Error::RateLimit(1609459200)));
}

#[test]
fn rate_limit_code_among_others_wins() {
    let body = TwitterErrors { errors: vec![record(34, "x"), record(88, "y")] };
    let r = Error::from_response(429, Some(body), Some(7), "ctx", None);
    assert!(matches!(r, Error::RateLimit(7)));
}

#[test]
fn rate_limit_code_without_header_is_remote_error() {
    let body = TwitterErrors { errors: vec![record(88, "Rate limit exceeded")] };
    let r = Error::from_response(429, Some(body), None, "ctx", None);
    match r {
        Error::TwitterError(e) => assert_eq!(e.errors[0].code, 88),
        _ => panic!("expected a remote error"),
    }
}

#[test]
fn duplicate_status_is_remote_error() {
    let body = TwitterErrors { errors: vec![record(187, "Status is a duplicate.")] };
    let r = Error::from_response(403, Some(body), Some(1609459200), "ctx", None);
    match r {
        Error::TwitterError(e) => {
            assert_eq!(e.errors.len(), 1);
            assert_eq!(e.errors[0].code, 187);
            assert_eq!(e.errors[0].message, "Status is a duplicate.");
        }
        _ => panic!("expected a remote error"),
    }
}

#[test]
fn unavailable_without_body_is_bad_status() {
    let r = Error::from_response(503, None, None, "ctx", None);
    assert!(matches!(r, Error::BadStatus(503)));
}

#[test]
fn empty_collection_falls_through() {
    let r = Error::from_response(500, Some(TwitterErrors { errors: vec![] }), Some(1), "ctx", None);
    assert!(matches!(r, Error::BadStatus(500)));
    let r = Error::from_response(200, Some(TwitterErrors { errors: vec![] }), None, "ctx", Some("{}".to_string()));
    match r {
        Error::InvalidResponse(what, raw) => {
            assert_eq!(what, "ctx");
            assert_eq!(raw, Some("{}".to_string()));
        }
        _ => panic!("expected an invalid response"),
    }
}

#[test]
fn success_status_edges() {
    assert!(matches!(Error::from_response(199, None, None, "c", None), Error::BadStatus(199)));
    assert!(matches!(Error::from_response(299, None, None, "c", None), Error::InvalidResponse("c", None)));
    assert!(matches!(Error::from_response(300, None, None, "c", None), Error::BadStatus(300)));
}

#[test]
fn polling_after_completion_fails() {
    let mut op = SingleShot::new();
    assert!(!op.is_completed());
    assert!(op.begin_poll().is_ok());
    assert!(op.finish::<u32>(None).is_none());
    assert!(op.begin_poll().is_ok());
    assert!(matches!(op.finish(Some(Ok::<u32, Error>(5))), Some(Ok(5))));
    assert!(op.is_completed());
    assert!(matches!(op.begin_poll(), Err(Error::FutureAlreadyCompleted)));
    assert!(matches!(op.begin_poll(), Err(Error::FutureAlreadyCompleted)));
    assert!(matches!(op.finish(Some(Ok::<u32, Error>(6))), Some(Err(Error::FutureAlreadyCompleted))));
}

#[test]
fn media_error_reads_all_fields() {
    let obj = object(vec![
        ("code", JsonValue::U64(1)),
        ("name", JsonValue::String("InvalidMedia".to_string())),
        ("message", JsonValue::String("Unsupported video format".to_string())),
        ("extra", JsonValue::Null),
    ]);
    let m = MediaError::from_json(&obj).unwrap();
    assert_eq!(m.code, 1);
    assert_eq!(m.name, "InvalidMedia");
    assert_eq!(m.message, "Unsupported video format");
    let obj = object(vec![
        ("message", JsonValue::String("m".to_string())),
        ("name", JsonValue::String("n".to_string())),
        ("code", JsonValue::I64(-2147483648)),
    ]);
    let m = MediaError::from_json(&obj).unwrap();
    assert_eq!(m.code, i32::MIN);
}

#[test]
fn media_error_names_first_missing_field() {
    let s = |t: &str| JsonValue::String(t.to_string());
    let missing = |obj: JsonObject| match MediaError::from_json(&obj) {
        Err(Error::MissingValue(f)) => f,
        _ => panic!("expected a missing value"),
    };
    assert_eq!(missing(object(vec![("name", s("n")), ("message", s("m"))])), "code");
    assert_eq!(missing(object(vec![("code", JsonValue::I64(3)), ("message", s("m"))])), "name");
    assert_eq!(missing(object(vec![("code", JsonValue::I64(3)), ("name", s("n"))])), "message");
    assert_eq!(missing(object(vec![("message", s("m"))])), "code");
    assert_eq!(missing(object(vec![("code", JsonValue::I64(3))])), "name");
    assert_eq!(missing(object(vec![])), "code");
}

#[test]
fn media_error_rejects_wrong_types() {
    let s = |t: &str| JsonValue::String(t.to_string());
    let bad = |obj: JsonObject| matches!(MediaError::from_json(&obj), Err(Error::InvalidResponse(_, _)));
    assert!(bad(object(vec![("code", s("1")), ("name", s("n")), ("message", s("m"))])));
    assert!(bad(object(vec![("code", JsonValue::I64(1)), ("name", JsonValue::I64(2)), ("message", s("m"))])));
    assert!(bad(object(vec![("code", JsonValue::I64(1)), ("name", s("n")), ("message", JsonValue::Null)])));
    assert!(bad(object(vec![("code", JsonValue::I64(1i64 << 40)), ("name", s("n")), ("message", s("m"))])));
    assert!(bad(object(vec![("code", JsonValue::U64(u64::MAX)), ("name", s("n")), ("message", s("m"))])));
}

#[test]
fn json_lookup_takes_first_entry() {
    let obj = object(vec![("a", JsonValue::I64(1)), ("a", JsonValue::I64(2))]);
    assert_eq!(obj.find("a").unwrap().as_i64(), Some(1));
    assert!(obj.find("b").is_none());
    assert_eq!(JsonValue::U64(i64::MAX as u64).as_i64(), None);
    assert_eq!(JsonValue::U64(5).as_i64(), Some(5));
    assert_eq!(JsonValue::String("x".to_string()).as_string().map(|s| s.as_str()), Some("x"));
    assert!(JsonValue::Boolean(true).as_string().is_none());
}

#[test]
fn displays_pure_variants() {
    assert_eq!(Error::BadUrl.to_string(), "URL given did not match API method");
    assert_eq!(Error::MissingValue("code").to_string(), "Value missing from response: code");
    assert_eq!(Error::FutureAlreadyCompleted.to_string(), "Future has already been completed");
    assert_eq!(Error::RateLimit(1609459200).to_string(), "Rate limit reached, hold until 1609459200");
    assert_eq!(
        Error::InvalidResponse("bad shape", None).to_string(),
        "Invalid response received: bad shape (None)"
    );
    assert_eq!(
        Error::InvalidResponse("bad shape", Some("a\"b".to_string())).to_string(),
        "Invalid response received: bad shape (Some(\"a\\\"b\"))"
    );
    let media = MediaError { code: 3, name: "n".to_string(), message: "too long".to_string() };
    assert_eq!(Error::MediaError(media).to_string(), "Error processing media: too long");
    let errs = TwitterErrors { errors: vec![record(34, "gone"), record(136, "blocked")] };
    assert_eq!(
        Error::TwitterError(errs).to_string(),
        "Error(s) returned from Twitter: #34: gone,\n#136: blocked"
    );
}

#[test]
fn displays_status_codes() {
    assert_eq!(Error::BadStatus(404).to_string(), "Error status received: 404 Not Found");
    assert_eq!(Error::BadStatus(503).to_string(), "Error status received: 503 Service Unavailable");
    assert_eq!(Error::BadStatus(42).to_string(), "Error status received: 42");
    assert_eq!(Error::BadStatus(1000).to_string(), "Error status received: 1000");
}

#[test]
fn describes_variants() {
    assert_eq!(Error::BadUrl.description(), "URL given did not match API method");
    assert_eq!(Error::BadStatus(500).description(), "Response included error code");
    assert_eq!(Error::RateLimit(1).description(), "Rate limit for method reached");
    let json = rustc_serialize::json::ParserError::SyntaxError(
        rustc_serialize::json::ErrorCode::InvalidSyntax,
        1,
        2,
    );
    assert_eq!(Error::from(json).description(), "failed to parse json");
    let decode = rustc_serialize::json::DecoderError::MissingFieldError("errors".to_string());
    assert_eq!(Error::from(decode).description(), "decoder error");
}

#[test]
fn conversions_keep_the_failure() {
    let io = std::io::Error::new(std::io::ErrorKind::Other, "boom");
    let e = Error::from(io);
    assert_eq!(e.failure_source(), Some(FailureSource::Io));
    assert_eq!(e.to_string(), "IO error: boom");
    match e.cause() {
        Some(Cause::Io(inner)) => assert_eq!(inner.to_string(), "boom"),
        _ => panic!("expected the I/O failure"),
    }

    let json = rustc_serialize::json::ParserError::SyntaxError(
        rustc_serialize::json::ErrorCode::InvalidSyntax,
        1,
        2,
    );
    let e = Error::from(json);
    assert_eq!(e.failure_source(), Some(FailureSource::JsonParse));
    assert!(e.to_string().starts_with("JSON parse Error: "));
    assert!(matches!(e.cause(), Some(Cause::Json(_))));

    let decode = rustc_serialize::json::DecoderError::MissingFieldError("errors".to_string());
    let e = Error::from(decode);
    assert_eq!(e.failure_source(), Some(FailureSource::JsonDecode));
    assert!(e.to_string().starts_with("JSON decode error: "));
    assert!(matches!(e.cause(), Some(Cause::Decode(_))));

    let ts = chrono::NaiveDate::parse_from_str("not a date", "%Y-%m-%d").unwrap_err();
    let e = Error::from(ts);
    assert_eq!(e.failure_source(), Some(FailureSource::Timestamp));
    assert!(e.to_string().starts_with("Error parsing timestamp: "));
    assert_eq!(e.description(), "parser error, see to_string() for details");
    assert!(matches!(e.cause(), Some(Cause::Timestamp(_))));
}

#[test]
fn pure_variants_have_no_cause() {
    assert!(Error::BadUrl.cause().is_none());
    assert!(Error::BadStatus(500).cause().is_none());
    assert!(Error::RateLimit(3).failure_source().is_none());
    assert!(Error::MissingValue("x").cause().is_none());
}

#[test]
fn reads_records_from_objects() {
    let s = |t: &str| JsonValue::String(t.to_string());
    let records = vec![
        object(vec![("code", JsonValue::I64(187)), ("message", s("Status is a duplicate."))]),
        object(vec![("message", s("second")), ("code", JsonValue::U64(34)), ("label", JsonValue::Null)]),
    ];
    let errs = TwitterErrors::from_json_records(&records).unwrap();
    assert_eq!(errs.errors.len(), 2);
    assert_eq!(errs.errors[0].code, 187);
    assert_eq!(errs.errors[0].message, "Status is a duplicate.");
    assert_eq!(errs.errors[1].code, 34);
    assert_eq!(errs.errors[1].message, "second");
    assert_eq!(TwitterErrors::from_json_records(&vec![]).unwrap().errors.len(), 0);
}

#[test]
fn rejects_records_without_both_fields() {
    let s = |t: &str| JsonValue::String(t.to_string());
    assert!(TwitterErrorCode::from_json(&object(vec![("code", JsonValue::I64(1))])).is_none());
    assert!(TwitterErrorCode::from_json(&object(vec![("message", s("m"))])).is_none());
    assert!(TwitterErrorCode::from_json(&object(vec![("code", s("1")), ("message", s("m"))])).is_none());
    let records = vec![
        object(vec![("code", JsonValue::I64(1)), ("message", s("ok"))]),
        object(vec![("code", JsonValue::I64(1 << 40)), ("message", s("too big"))]),
    ];
    assert!(TwitterErrors::from_json_records(&records).is_none());
}
