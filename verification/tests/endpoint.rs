use apca::endpoint::format_code;
use apca::endpoint::parse;
use apca::endpoint::parse_err;
use apca::endpoint::ApiError;
use apca::endpoint::ConversionError;
use apca::endpoint::Disposition;
use apca::endpoint::EndpointError;
use apca::endpoint::ErrorKind;
use apca::endpoint::Payload;
use apca::endpoint::Request;
use apca::endpoint::StatusTable;
use apca::endpoint::TableError;
use apca::endpoint::TOO_MANY_REQUESTS;
use apca::endpoint::UNAUTHORIZED;

/// The errors that the endpoint of these tests declares.
#[derive(Clone, Copy, Debug, PartialEq, Eq)]
enum Declared {
    NotFound,
    Forbidden,
    Mine,
}

fn json_error() -> serde_json::Error {
    serde_json::from_str::<u64>("not json").unwrap_err()
}

fn urlencode_error() -> serde_urlencoded::ser::Error {
    serde_urlencoded::to_string(1u8).unwrap_err()
}

/// Reads the service's error from a body, as a decoder of the transport
/// would.
fn decode_api_error(body: &[u8]) -> Result<ApiError, serde_json::Error> {
    let value = serde_json::from_slice::<serde_json::Value>(body)?;
    let message = match value.get("message").and_then(|m| m.as_str()) {
        Some(message) => message.to_string(),
        None => return Err(json_error()),
    };
    let code = match value.get("code") {
        None => None,
        Some(code) if code.is_null() => None,
        Some(code) => match code.as_u64() {
            Some(code) => Some(code),
            None => return Err(json_error()),
        },
    };
    Ok(ApiError { code, message })
}

fn read_numbers(body: &[u8]) -> Result<Vec<u64>, ConversionError> {
    parse(serde_json::from_slice::<Vec<u64>>(body))
}

fn read_error(body: &[u8]) -> Payload {
    parse_err(decode_api_error(body), body)
}

fn table() -> StatusTable<Declared> {
    StatusTable::try_new(
        vec![200, 204],
        vec![(404, Declared::NotFound), (403, Declared::Forbidden)],
    )
    .unwrap()
}

#[test]
fn format_code_with_and_without_code() {
    assert_eq!(format_code(&Some(5)), " (5)");
    assert_eq!(format_code(&Some(0)), " (0)");
    assert_eq!(format_code(&Some(40010001)), " (40010001)");
    assert_eq!(format_code(&Some(u64::MAX)), " (18446744073709551615)");
    assert_eq!(format_code(&None), "");
}

#[test]
fn api_error_is_shown_with_its_code() {
    let error = ApiError {
        code: Some(40410000),
        message: "order not found".to_string(),
    };
    assert_eq!(error.to_string(), "order not found (40410000)");
}

#[test]
fn api_error_is_shown_without_a_code() {
    let error = ApiError {
        code: None,
        message: "order not found".to_string(),
    };
    assert_eq!(error.to_string(), "order not found");
}

#[test]
fn api_errors_are_equal_by_value() {
    let a = ApiError { code: Some(1), message: "m".to_string() };
    let b = ApiError { code: Some(1), message: "m".to_string() };
    let c = ApiError { code: None, message: "m".to_string() };
    let d = ApiError { code: Some(1), message: "n".to_string() };
    assert_eq!(a, b);
    assert_ne!(a, c);
    assert_ne!(a, d);
    assert_eq!(a.clone(), a);
}

#[test]
fn conversion_errors_describe_themselves() {
    assert_eq!(
        ConversionError::Json(json_error()).to_string(),
        "failed to convert from/to JSON"
    );
    assert_eq!(
        ConversionError::UrlEncode(urlencode_error()).to_string(),
        "failed to URL-encode data"
    );
}

#[test]
fn conversion_error_is_made_from_the_outside_errors() {
    assert!(matches!(ConversionError::from(json_error()), ConversionError::Json(_)));
    assert!(matches!(
        ConversionError::from(urlencode_error()),
        ConversionError::UrlEncode(_)
    ));
    match ConversionError::from(urlencode_error()) {
        ConversionError::UrlEncode(e) => assert_eq!(e, urlencode_error()),
        other => panic!("unexpected {:?}", other),
    }
}

#[test]
fn parse_hands_the_output_on() {
    assert_eq!(read_numbers(b"[1, 2, 3]").unwrap(), vec![1, 2, 3]);
    assert_eq!(read_numbers(b"[]").unwrap(), Vec::<u64>::new());
}

#[test]
fn parse_turns_a_failure_into_a_conversion_error() {
    let text = json_error().to_string();
    match parse::<u64>(Err(json_error())) {
        Err(ConversionError::Json(e)) => assert_eq!(e.to_string(), text),
        other => panic!("unexpected {:?}", other),
    }
    assert!(matches!(read_numbers(b"{"), Err(ConversionError::Json(_))));
    assert!(matches!(read_numbers(b"[1, -2]"), Err(ConversionError::Json(_))));
}

#[test]
fn parse_err_hands_the_error_on() {
    let body = br#"{"code": 40110000, "message": "request is not authorized"}"#;
    assert_eq!(
        read_error(body),
        Ok(ApiError {
            code: Some(40110000),
            message: "request is not authorized".to_string(),
        })
    );
    assert_eq!(
        read_error(br#"{"message": "no code"}"#),
        Ok(ApiError { code: None, message: "no code".to_string() })
    );
}

#[test]
fn parse_err_falls_back_to_the_raw_body() {
    assert_eq!(read_error(b"server exploded"), Err(b"server exploded".to_vec()));
    assert_eq!(read_error(b""), Err(Vec::new()));
    assert_eq!(read_error(br#"{"code": 7}"#), Err(br#"{"code": 7}"#.to_vec()));
    assert_eq!(read_error(&[0xff, 0x00, 0xfe]), Err(vec![0xff, 0x00, 0xfe]));
    assert_eq!(
        parse_err(Err(json_error()), b"{\"message\": \"ignored\"}"),
        Err(b"{\"message\": \"ignored\"}".to_vec())
    );
}

#[test]
fn the_universal_codes_are_401_and_429() {
    assert_eq!(UNAUTHORIZED, 401);
    assert_eq!(TOO_MANY_REQUESTS, 429);
}

#[test]
fn classify_asks_the_success_table() {
    let table = table();
    assert_eq!(table.classify(200), Disposition::Success);
    assert_eq!(table.classify(204), Disposition::Success);
}

#[test]
fn classify_finds_the_declared_errors() {
    let table = table();
    assert_eq!(
        table.classify(404),
        Disposition::Failure(ErrorKind::Endpoint(Declared::NotFound))
    );
    assert_eq!(
        table.classify(403),
        Disposition::Failure(ErrorKind::Endpoint(Declared::Forbidden))
    );
}

#[test]
fn classify_knows_the_universal_errors_without_a_declaration() {
    let table = table();
    assert_eq!(
        table.classify(401),
        Disposition::Failure(ErrorKind::AuthenticationFailed)
    );
    assert_eq!(
        table.classify(429),
        Disposition::Failure(ErrorKind::RateLimitExceeded)
    );
    let bare = StatusTable::<Declared>::try_new(vec![], vec![]).unwrap();
    assert_eq!(bare.classify(401), Disposition::Failure(ErrorKind::AuthenticationFailed));
    assert_eq!(bare.classify(429), Disposition::Failure(ErrorKind::RateLimitExceeded));
    assert_eq!(bare.classify(200), Disposition::Unexpected);
}

#[test]
fn classify_leaves_other_codes_unexpected() {
    let table = table();
    for status in [0u16, 100, 201, 301, 400, 402, 405, 428, 430, 500, 503, 999, u16::MAX] {
        assert_eq!(table.classify(status), Disposition::Unexpected);
    }
}

#[test]
fn a_declared_401_or_429_never_replaces_the_universal_entry() {
    let table = StatusTable::try_new(
        vec![200],
        vec![(401, Declared::Mine), (429, Declared::Mine), (404, Declared::NotFound)],
    )
    .unwrap();
    assert_eq!(
        table.classify(401),
        Disposition::Failure(ErrorKind::AuthenticationFailed)
    );
    assert_eq!(
        table.classify(429),
        Disposition::Failure(ErrorKind::RateLimitExceeded)
    );
    assert_eq!(
        table.classify(404),
        Disposition::Failure(ErrorKind::Endpoint(Declared::NotFound))
    );
    let body = br#"{"message": "denied"}"#;
    let result = table.evaluate(401, body, read_numbers, read_error);
    match result {
        Err(EndpointError::AuthenticationFailed(payload)) => {
            assert_eq!(payload, Ok(ApiError { code: None, message: "denied".to_string() }));
        },
        other => panic!("unexpected {:?}", other),
    }
    let result = table.evaluate(429, body, read_numbers, read_error);
    assert!(matches!(result, Err(EndpointError::RateLimitExceeded(Ok(_)))));
}

#[test]
fn the_first_entry_for_a_code_counts() {
    let table = StatusTable::try_new(
        vec![200],
        vec![(404, Declared::NotFound), (404, Declared::Mine)],
    )
    .unwrap();
    assert_eq!(
        table.classify(404),
        Disposition::Failure(ErrorKind::Endpoint(Declared::NotFound))
    );
}

#[test]
fn overlapping_tables_are_refused() {
    let r = StatusTable::try_new(vec![200, 404], vec![(404, Declared::NotFound)]);
    assert_eq!(r.err(), Some(TableError::Overlap(404)));
    let r = StatusTable::<Declared>::try_new(vec![200, 401], vec![]);
    assert_eq!(r.err(), Some(TableError::Overlap(401)));
    let r = StatusTable::<Declared>::try_new(vec![429], vec![]);
    assert_eq!(r.err(), Some(TableError::Overlap(429)));
}

#[test]
fn the_first_overlapping_success_code_is_reported() {
    let r = StatusTable::try_new(
        vec![200, 403, 404],
        vec![(404, Declared::NotFound), (403, Declared::Forbidden)],
    );
    assert_eq!(r.err(), Some(TableError::Overlap(403)));
}

#[test]
fn tables_made_by_new_classify_alike() {
    let table = StatusTable::new(vec![200], vec![(404, Declared::NotFound)]);
    assert_eq!(table.classify(200), Disposition::Success);
    assert_eq!(
        table.classify(404),
        Disposition::Failure(ErrorKind::Endpoint(Declared::NotFound))
    );
    assert_eq!(table.classify(401), Disposition::Failure(ErrorKind::AuthenticationFailed));
    assert_eq!(table.classify(500), Disposition::Unexpected);
}

#[test]
fn evaluate_success_gives_the_output() {
    let result = table().evaluate(200, b"[4, 5]", read_numbers, read_error);
    assert_eq!(result.unwrap(), vec![4, 5]);
}

#[test]
fn evaluate_success_with_a_bad_body_is_a_conversion_error() {
    let result = table().evaluate(200, b"server exploded", read_numbers, read_error);
    assert!(matches!(
        result,
        Err(EndpointError::Conversion(ConversionError::Json(_)))
    ));
}

#[test]
fn evaluate_calls_only_the_parser_that_the_status_asks_for() {
    let result = table().evaluate(
        200,
        b"[1]",
        read_numbers,
        |_: &[u8]| -> Payload { panic!("the error parser was called") },
    );
    assert_eq!(result.unwrap(), vec![1]);
    let result = table().evaluate(
        404,
        b"gone",
        |_: &[u8]| -> Result<Vec<u64>, ConversionError> { panic!("the parser was called") },
        read_error,
    );
    assert!(matches!(result, Err(EndpointError::Endpoint(Declared::NotFound, Err(_)))));
    let result = table().evaluate(
        503,
        b"gone",
        |_: &[u8]| -> Result<Vec<u64>, ConversionError> { panic!("the parser was called") },
        |_: &[u8]| -> Payload { panic!("the error parser was called") },
    );
    assert!(matches!(result, Err(EndpointError::UnexpectedStatus(503, _))));
}

#[test]
fn evaluate_declared_error_carries_the_api_error() {
    let body = br#"{"code": 40410000, "message": "order not found"}"#;
    let result = table().evaluate(404, body, read_numbers, read_error);
    match result {
        Err(EndpointError::Endpoint(Declared::NotFound, Ok(error))) => {
            assert_eq!(error.code, Some(40410000));
            assert_eq!(error.message, "order not found");
        },
        other => panic!("unexpected {:?}", other),
    }
}

#[test]
fn evaluate_error_with_a_malformed_body_carries_the_raw_bytes() {
    let result = table().evaluate(404, b"server exploded", read_numbers, read_error);
    match result {
        Err(EndpointError::Endpoint(Declared::NotFound, Err(raw))) => {
            assert_eq!(raw, b"server exploded".to_vec());
        },
        other => panic!("unexpected {:?}", other),
    }
    let result = table().evaluate(401, b"server exploded", read_numbers, read_error);
    match result {
        Err(EndpointError::AuthenticationFailed(Err(raw))) => {
            assert_eq!(raw, b"server exploded".to_vec());
        },
        other => panic!("unexpected {:?}", other),
    }
    let result = table().evaluate(429, b"server exploded", read_numbers, read_error);
    match result {
        Err(EndpointError::RateLimitExceeded(Err(raw))) => {
            assert_eq!(raw, b"server exploded".to_vec());
        },
        other => panic!("unexpected {:?}", other),
    }
}

#[test]
fn evaluate_unexpected_status_keeps_code_and_body() {
    let table = StatusTable::<Declared>::try_new(vec![200], vec![]).unwrap();
    let result = table.evaluate(503, b"service unavailable", read_numbers, read_error);
    match result {
        Err(EndpointError::UnexpectedStatus(status, body)) => {
            assert_eq!(status, 503);
            assert_eq!(body, b"service unavailable".to_vec());
        },
        other => panic!("unexpected {:?}", other),
    }
}

#[test]
fn evaluate_unexpected_status_does_not_read_the_body() {
    let body = br#"{"code": 1, "message": "well formed"}"#;
    let result = table().evaluate(500, body, read_numbers, read_error);
    match result {
        Err(EndpointError::UnexpectedStatus(500, raw)) => assert_eq!(raw, body.to_vec()),
        other => panic!("unexpected {:?}", other),
    }
}

#[test]
fn assemble_puts_the_parts_together() {
    let request = Request::assemble(
        "/v2/things".to_string(),
        Ok(Some("a=b".to_string())),
        Ok(Some(b"{}".to_vec())),
    )
    .unwrap();
    assert_eq!(
        request,
        Request {
            path: "/v2/things".to_string(),
            query: Some("a=b".to_string()),
            body: Some(b"{}".to_vec()),
        }
    );
    let request = Request::assemble("/v2/things".to_string(), Ok(None), Ok(None)).unwrap();
    assert_eq!(request.path, "/v2/things");
    assert_eq!(request.query, None);
    assert_eq!(request.body, None);
}

#[test]
fn assemble_stops_at_a_failed_query() {
    let result = Request::assemble(
        "/v2/things".to_string(),
        Err(ConversionError::UrlEncode(urlencode_error())),
        Ok(None),
    );
    assert!(matches!(result, Err(ConversionError::UrlEncode(_))));
}

#[test]
fn assemble_stops_at_a_failed_body() {
    let result = Request::assemble(
        "/v2/things".to_string(),
        Ok(None),
        Err(ConversionError::Json(json_error())),
    );
    assert!(matches!(result, Err(ConversionError::Json(_))));
}

#[test]
fn assemble_reports_the_query_before_the_body() {
    let result = Request::assemble(
        "/v2/things".to_string(),
        Err(ConversionError::UrlEncode(urlencode_error())),
        Err(ConversionError::Json(json_error())),
    );
    assert!(matches!(result, Err(ConversionError::UrlEncode(_))));
}
