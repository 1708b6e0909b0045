use blindpay::http::{
    decode_response, read_envelope, read_failure, read_success, resolve_envelope,
    status_is_success,
};
use blindpay::json::{Json, Member};
use blindpay::types::BlindPayApiResponse;
use blindpay::BlindPayError;

fn member(name: &str, value: Json) -> Member {
    Member { name: name.to_string(), value }
}

fn id_x() -> Json {
    Json::Object(vec![member("id", Json::string("x"))])
}

#[test]
fn success_envelope_yields_the_payload() {
    let outcome = decode_response(200, "{\"data\": {\"id\":\"x\"}, \"error\": null}");
    assert_eq!(outcome, Ok(id_x()));
}

#[test]
fn failure_envelope_under_200_is_an_api_error() {
    let outcome = decode_response(200, "{\"data\": null, \"error\": {\"message\":\"bad state\"}}");
    assert_eq!(outcome, Err(BlindPayError::ApiError("bad state".to_string())));
}

#[test]
fn failure_body_under_404_is_an_api_error() {
    let outcome = decode_response(404, "{\"error\": {\"message\":\"not found\"}}");
    assert_eq!(outcome, Err(BlindPayError::ApiError("not found".to_string())));
}

#[test]
fn malformed_body_under_200_is_a_serialization_error() {
    let outcome = decode_response(200, "<html>oops</html>");
    assert!(matches!(outcome, Err(BlindPayError::SerializationError(_))));
    let outcome = decode_response(200, "");
    assert!(matches!(outcome, Err(BlindPayError::SerializationError(_))));
    let outcome = decode_response(200, "{\"data\": {\"id\":\"x\"}");
    assert!(matches!(outcome, Err(BlindPayError::SerializationError(_))));
}

#[test]
fn malformed_body_under_500_is_a_serialization_error() {
    let outcome = decode_response(500, "Internal Server Error");
    assert!(matches!(outcome, Err(BlindPayError::SerializationError(_))));
}

#[test]
fn serialization_error_carries_the_parser_text() {
    match decode_response(200, "{") {
        Err(BlindPayError::SerializationError(text)) => {
            assert_eq!(text, "EOF while parsing an object at line 1 column 1")
        }
        other => panic!("unexpected outcome: {:?}", other),
    }
}

#[test]
fn success_shape_under_a_failure_status_is_not_a_success() {
    let outcome = decode_response(500, "{\"data\": {\"id\":\"x\"}, \"error\": null}");
    assert!(matches!(outcome, Err(BlindPayError::SerializationError(_))));
}

#[test]
fn body_with_neither_shape_is_a_serialization_error() {
    for body in ["{\"id\":\"x\"}", "[1,2]", "null", "\"text\"", "{\"error\": null}"] {
        let outcome = decode_response(200, body);
        assert!(matches!(outcome, Err(BlindPayError::SerializationError(_))), "{}", body);
    }
}

#[test]
fn error_without_a_string_message_is_a_serialization_error() {
    for body in [
        "{\"error\": {\"message\": 5}}",
        "{\"error\": {\"code\": \"x\"}}",
        "{\"error\": \"failed\"}",
        "{\"data\": {\"id\":\"x\"}, \"error\": {\"message\":\"both\"}}",
    ] {
        for status in [200, 400] {
            let outcome = decode_response(status, body);
            assert!(matches!(outcome, Err(BlindPayError::SerializationError(_))), "{}", body);
        }
    }
}

#[test]
fn payload_may_be_null_or_a_list() {
    assert_eq!(decode_response(200, "{\"data\": null}"), Ok(Json::Null));
    assert_eq!(
        decode_response(201, "{\"data\": [true, \"a\"], \"error\": null}"),
        Ok(Json::Array(vec![Json::Bool(true), Json::string("a")]))
    );
}

#[test]
fn status_bounds() {
    assert!(!status_is_success(199));
    assert!(status_is_success(200));
    assert!(status_is_success(204));
    assert!(status_is_success(299));
    assert!(!status_is_success(300));
    assert!(!status_is_success(404));
}

#[test]
fn resolve_envelope_on_built_documents() {
    let success = Json::Object(vec![member("data", id_x()), member("error", Json::Null)]);
    assert_eq!(resolve_envelope(200, success), Ok(id_x()));
    let failure = Json::Object(vec![
        member("data", Json::Null),
        member("error", Json::Object(vec![member("message", Json::string("bad state"))])),
    ]);
    assert_eq!(
        resolve_envelope(200, failure.clone()),
        Err(BlindPayError::ApiError("bad state".to_string()))
    );
    assert_eq!(
        resolve_envelope(422, failure),
        Err(BlindPayError::ApiError("bad state".to_string()))
    );
}

#[test]
fn shapes_are_read_apart() {
    let success = Json::Object(vec![member("data", id_x())]);
    assert!(read_failure(&success).is_none());
    let read = read_success(success.clone()).unwrap();
    assert_eq!(read.data, id_x());
    assert_eq!(read.error, None);
    assert!(matches!(read_envelope(success), Some(BlindPayApiResponse::Success(_))));

    let failure =
        Json::Object(vec![member("error", Json::Object(vec![member("message", Json::string("no"))]))]);
    assert_eq!(read_failure(&failure).unwrap().error.message, "no");
    assert!(read_success(failure.clone()).is_none());
    match read_envelope(failure) {
        Some(BlindPayApiResponse::Error(found)) => assert_eq!(found.error.message, "no"),
        _ => panic!("the failure shape was not read"),
    }
    assert!(read_envelope(Json::Null).is_none());
}

#[test]
fn parser_rules_reach_the_payload() {
    assert_eq!(
        decode_response(200, "{\"data\": 1, \"data\": 2}"),
        Ok(Json::Number("2".to_string()))
    );
    assert_eq!(
        decode_response(200, "{\"data\": \"caf\\u00e9\", \"extra\": [1]}"),
        Ok(Json::string("caf\u{e9}"))
    );
    assert_eq!(
        decode_response(400, " {\"error\": {\"message\": \"a\\nb\", \"code\": 7}} "),
        Err(BlindPayError::ApiError("a\nb".to_string()))
    );
}
