use yandex_money::transport;
use yandex_money::{decode_envelope, decode_response, empty_response, Decoded, Error, Rsp};

#[derive(Debug, Clone, PartialEq)]
struct Balance {
    balance: u32,
}

/// Reads a body the way a caller does before handing it to the library.
fn read_body(body: &str) -> Decoded<Balance> {
    match serde_json::from_str::<serde_json::Value>(body) {
        Err(e) => Decoded::Malformed { message: e.to_string() },
        Ok(v) => Decoded::Json {
            error: v.get("error").and_then(|e| e.as_str()).map(|s| s.to_string()),
            payload: v.get("balance").and_then(|b| b.as_u64()).map(|b| Balance { balance: b as u32 }),
        },
    }
}

#[test]
fn envelope_error_body_is_rejection() {
    match decode_response(read_body(r#"{"error":"some text"}"#)) {
        Err(Error::YandexError { description }) => assert_eq!(description, "some text"),
        other => panic!("unexpected {:?}", other),
    }
}

#[test]
fn envelope_success_body_is_payload() {
    match decode_response(read_body(r#"{"balance":42}"#)) {
        Ok(b) => assert_eq!(b, Balance { balance: 42 }),
        other => panic!("unexpected {:?}", other),
    }
}

#[test]
fn envelope_malformed_body_is_parse_failure() {
    match decode_response(read_body("{not json")) {
        Err(Error::TransportError { source: transport::Error::ParseError { .. } }) => {},
        other => panic!("unexpected {:?}", other),
    }
}

#[test]
fn envelope_wrong_shape_is_parse_failure() {
    match decode_envelope(read_body(r#"{"other":1}"#)) {
        Err(transport::Error::ParseError { message }) => {
            assert_eq!(message, "data did not match any variant of the response envelope")
        },
        other => panic!("unexpected {:?}", other),
    }
}

#[test]
fn envelope_error_member_wins_over_payload() {
    match decode_envelope(read_body(r#"{"error":"bad","balance":1}"#)) {
        Ok(Rsp::Error { error }) => assert_eq!(error, "bad"),
        other => panic!("unexpected {:?}", other),
    }
}

#[test]
fn into_result_maps_both_shapes() {
    let ok: Rsp<u32> = Rsp::OK(3);
    assert!(matches!(ok.into_result(), Ok(3)));
    let err: Rsp<u32> = Rsp::Error { error: "no".to_string() };
    match err.into_result() {
        Err(Error::YandexError { description }) => assert_eq!(description, "no"),
        other => panic!("unexpected {:?}", other),
    }
}

/// The string `error` member of a body, as a caller reads it.
fn error_member(body: &str) -> Option<String> {
    match read_body(body) {
        Decoded::Json { error, .. } => error,
        Decoded::Malformed { .. } => None,
    }
}

#[test]
fn revoke_empty_body_succeeds() {
    assert!(empty_response(Ok(error_member(""))).is_ok());
    assert!(empty_response(Ok(error_member("{}"))).is_ok());
}

#[test]
fn revoke_rejection_body_is_not_silent() {
    match empty_response(Ok(error_member(r#"{"error":"invalid_token"}"#))) {
        Err(Error::YandexError { description }) => assert_eq!(description, "invalid_token"),
        other => panic!("unexpected {:?}", other),
    }
}

#[test]
fn revoke_failure_is_not_silent() {
    let again = empty_response(Err(transport::Error::from_network_error(
        "Received error 401 Unauthorized with data: ".to_string(),
    )));
    match again {
        Err(Error::TransportError { source: transport::Error::NetworkError { message } }) => {
            assert!(message.contains("401"))
        },
        other => panic!("unexpected {:?}", other),
    }
}

#[test]
fn transport_error_constructors() {
    assert!(matches!(
        transport::Error::from_parse_error("p".to_string()),
        transport::Error::ParseError { message } if message == "p"
    ));
    assert!(matches!(
        transport::Error::from_network_error("n".to_string()),
        transport::Error::NetworkError { message } if message == "n"
    ));
}
