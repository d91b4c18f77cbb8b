//! The one shape of every error body: a category, a message for people, a
//! tag for machines, and the time.

use crate::clock::{timestamp_now, UNIX_NOW_LIMIT};
use crate::models::user::Timestamp;
use vstd::prelude::*;

verus! {

/// An error response: the status to answer with and the four members of the
/// JSON body.
#[derive(Debug, Clone)]
pub struct ErrorResponse {
    pub status: u16,
    pub error: String,
    pub message: String,
    pub code: String,
    /// When the error was met.
    pub timestamp: Timestamp,
}

/// The statuses that have a category of their own.
pub open spec fn is_known_status(status_code: u16) -> bool {
    ||| status_code == 400
    ||| status_code == 401
    ||| status_code == 403
    ||| status_code == 404
    ||| status_code == 422
    ||| status_code == 429
    ||| status_code == 500
}

/// What an error response holds, the time aside: for a known status what the
/// caller gave, for any other the fixed answer of an unknown error.
pub open spec fn error_body(status_code: u16, error: Seq<char>, message: Seq<char>, code: Seq<char>) -> (
    u16,
    Seq<char>,
    Seq<char>,
    Seq<char>,
) {
    if is_known_status(status_code) {
        (status_code, error, message, code)
    } else {
        (500, "Internal Server Error"@, "An unexpected error occurred"@, "UNKNOWN_ERROR"@)
    }
}

impl ErrorResponse {
    /// What the response holds, the time aside.
    pub open spec fn body(&self) -> (u16, Seq<char>, Seq<char>, Seq<char>) {
        (self.status, self.error@, self.message@, self.code@)
    }

    /// The time of the response is one that the wall clock reads.
    pub open spec fn stamped(&self) -> bool {
        0 <= self.timestamp.secs < UNIX_NOW_LIMIT
    }

    /// The response holds `body`, and its time is one that the wall clock
    /// reads.
    pub open spec fn says(&self, body: (u16, Seq<char>, Seq<char>, Seq<char>)) -> bool {
        self.body() == body && self.stamped()
    }
}

/// The error response for a status, stamped with `timestamp`.
pub fn error_response_at(status_code: u16, error: &str, message: &str, code: &str, timestamp: Timestamp) -> (response:
    ErrorResponse)
    ensures
        response.body() == error_body(status_code, error@, message@, code@),
        response.timestamp == timestamp,
{
    match status_code {
        400 | 401 | 403 | 404 | 422 | 429 | 500 => ErrorResponse {
            status: status_code,
            error: error.to_owned(),
            message: message.to_owned(),
            code: code.to_owned(),
            timestamp,
        },
        _ => ErrorResponse {
            status: 500,
            error: "Internal Server Error".to_owned(),
            message: "An unexpected error occurred".to_owned(),
            code: "UNKNOWN_ERROR".to_owned(),
            timestamp,
        },
    }
}

/// The error response for a status, stamped with the moment of the call.
pub fn create_json_error_response(status_code: u16, error: &str, message: &str, code: &str) -> (response:
    ErrorResponse)
    ensures
        response.says(error_body(status_code, error@, message@, code@)),
{
    error_response_at(status_code, error, message, code, timestamp_now())
}

pub fn unauthorized_error(message: &str, code: &str) -> (response: ErrorResponse)
    ensures
        response.says((401u16, "Unauthorized"@, message@, code@)),
{
    create_json_error_response(401, "Unauthorized", message, code)
}

pub fn forbidden_error(message: &str, code: &str) -> (response: ErrorResponse)
    ensures
        response.says((403u16, "Forbidden"@, message@, code@)),
{
    create_json_error_response(403, "Forbidden", message, code)
}

pub fn bad_request_error(message: &str, code: &str) -> (response: ErrorResponse)
    ensures
        response.says((400u16, "Bad Request"@, message@, code@)),
{
    create_json_error_response(400, "Bad Request", message, code)
}

pub fn not_found_error(message: &str, code: &str) -> (response: ErrorResponse)
    ensures
        response.says((404u16, "Not Found"@, message@, code@)),
{
    create_json_error_response(404, "Not Found", message, code)
}

pub fn internal_server_error(message: &str, code: &str) -> (response: ErrorResponse)
    ensures
        response.says((500u16, "Internal Server Error"@, message@, code@)),
{
    create_json_error_response(500, "Internal Server Error", message, code)
}

} // verus!
