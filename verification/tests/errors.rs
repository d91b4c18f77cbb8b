use api_rest_rust::middleware::error_handler::{
    bad_request_error, create_json_error_response, error_response_at, forbidden_error,
    internal_server_error, not_found_error, unauthorized_error,
};
use api_rest_rust::models::Timestamp;

const THEN: Timestamp = Timestamp { secs: 1_704_067_200, nanos: 500 };

#[test]
fn test_create_json_error_response() {
    let response =
        create_json_error_response(401, "Unauthorized", "Token expired", "TOKEN_EXPIRED");
    assert_eq!(response.status, 401);
}

#[test]
fn test_unauthorized_error() {
    let response = unauthorized_error("Token expired", "TOKEN_EXPIRED");
    assert_eq!(response.status, 401);
}

#[test]
fn test_forbidden_error() {
    let response = forbidden_error("Access denied", "ACCESS_DENIED");
    assert_eq!(response.status, 403);
}

#[test]
fn test_create_json_error_response_unknown_status() {
    let response = create_json_error_response(999, "Unknown", "Unknown error", "UNKNOWN");
    assert_eq!(response.status, 500);
}

#[test]
fn a_known_status_keeps_what_the_caller_gave() {
    for status in [400u16, 401, 403, 404, 422, 429, 500] {
        let response = error_response_at(status, "Category", "text", "TAG", THEN);
        assert_eq!(response.status, status);
        assert_eq!(response.error, "Category");
        assert_eq!(response.message, "text");
        assert_eq!(response.code, "TAG");
        assert_eq!(response.timestamp, THEN);
    }
}

#[test]
fn an_unknown_status_gives_the_fixed_answer() {
    for status in [0u16, 200, 302, 399, 402, 405, 418, 421, 423, 428, 430, 499, 501, 503, 999, u16::MAX] {
        let response = error_response_at(status, "Unknown", "Unknown error", "UNKNOWN", THEN);
        assert_eq!(response.status, 500);
        assert_eq!(response.error, "Internal Server Error");
        assert_eq!(response.message, "An unexpected error occurred");
        assert_eq!(response.code, "UNKNOWN_ERROR");
        assert_eq!(response.timestamp, THEN);
    }
}

#[test]
fn the_time_of_an_error_is_now() {
    let before = chrono::Utc::now();
    let response = create_json_error_response(404, "Not Found", "nothing here", "NOT_FOUND");
    let after = chrono::Utc::now();
    let stamped =
        chrono::DateTime::from_timestamp(response.timestamp.secs, response.timestamp.nanos).unwrap();
    assert!(before <= stamped && stamped <= after);
}

#[test]
fn each_category_has_its_status_and_name() {
    let response = unauthorized_error("m", "c");
    assert_eq!((response.status, response.error.as_str()), (401, "Unauthorized"));
    assert_eq!((response.message.as_str(), response.code.as_str()), ("m", "c"));
    let response = forbidden_error("m", "c");
    assert_eq!((response.status, response.error.as_str()), (403, "Forbidden"));
    let response = bad_request_error("m", "c");
    assert_eq!((response.status, response.error.as_str()), (400, "Bad Request"));
    let response = not_found_error("m", "c");
    assert_eq!((response.status, response.error.as_str()), (404, "Not Found"));
    let response = internal_server_error("m", "c");
    assert_eq!((response.status, response.error.as_str()), (500, "Internal Server Error"));
    assert_eq!((response.message.as_str(), response.code.as_str()), ("m", "c"));
}
