use vstd::prelude::*;

verus! {

/// Generic bad-input error code.
pub const CODE_BAD_REQUEST: u32 = 40000;

/// A response had a missing or unacceptable content type.
pub const CODE_BAD_CONTENT_TYPE: u32 = 40001;

/// A Link header could not be parsed.
pub const CODE_INVALID_LINK: u32 = 40004;

/// A client id was present but empty.
pub const CODE_EMPTY_CLIENT_ID: u32 = 40012;

/// A signed token request was asked for without an API key.
pub const CODE_KEY_REQUIRED: u32 = 40106;

/// A token could not be obtained, or was unacceptable.
pub const CODE_TOKEN_FAILED: u32 = 40170;

/// Nothing is configured that could produce a token.
pub const CODE_NO_MEANS_TO_RENEW: u32 = 40171;

/// A non-2xx response whose error body could not be decoded.
pub const CODE_UNEXPECTED: u32 = 50000;

/// A typed failure: a numeric code, a message for humans, and the HTTP
/// status when one applies.
#[derive(Clone, Debug)]
pub struct ErrorInfo {
    pub code: u32,
    pub message: String,
    pub status_code: Option<u32>,
}

impl ErrorInfo {
    pub fn new(code: u32, message: &str) -> (r: ErrorInfo)
        ensures
            r.code == code,
            r.message@ == message@,
            r.status_code is None,
    {
        ErrorInfo { code, message: String::from_str(message), status_code: None }
    }

    pub fn with_status(code: u32, message: &str, status: u32) -> (r: ErrorInfo)
        ensures
            r.code == code,
            r.message@ == message@,
            r.status_code == Some(status),
    {
        ErrorInfo { code, message: String::from_str(message), status_code: Some(status) }
    }
}

} // verus!
