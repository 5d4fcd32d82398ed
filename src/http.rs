use vstd::prelude::*;
use crate::credential::{authorization, authorization_of, Credential};
use crate::error::{ErrorInfo, CODE_BAD_CONTENT_TYPE, CODE_TOKEN_FAILED, CODE_UNEXPECTED};
use crate::outside::{mime_essence, mime_essence_of};
use crate::signing::opt_view;

verus! {

/// The protocol version sent with every request.
pub const PROTOCOL_VERSION: &'static str = "1.2";

/// The encoding of request and response bodies.
#[derive(Clone, Copy, Debug, PartialEq, Eq, Structural)]
pub enum Format {
    MessagePack,
    JSON,
}

/// How an auth URL's response body is to be read.
#[derive(Clone, Copy, Debug, PartialEq, Eq, Structural)]
pub enum AuthUrlBody {
    /// A JSON token request or token details.
    Json,
    /// A literal token string.
    Literal,
}

/// Whether two texts are equal.
pub fn text_eq(a: &str, b: &str) -> (r: bool)
    ensures
        r == (a@ == b@),
{
    let n = a.unicode_len();
    if n != b.unicode_len() {
        return false;
    }
    let mut i: usize = 0;
    while i < n
        invariant
            n == a@.len(),
            n == b@.len(),
            i <= n,
            a@.subrange(0, i as int) == b@.subrange(0, i as int),
        decreases n - i,
    {
        if a.get_char(i) != b.get_char(i) {
            proof {
                assert(a@[i as int] != b@[i as int]);
            }
            return false;
        }
        proof {
            assert(a@.subrange(0, i as int + 1) =~= a@.subrange(0, i as int).push(a@[i as int]));
            assert(b@.subrange(0, i as int + 1) =~= b@.subrange(0, i as int).push(b@[i as int]));
        }
        i = i + 1;
    }
    proof {
        assert(a@ =~= a@.subrange(0, n as int));
        assert(b@ =~= b@.subrange(0, n as int));
    }
    true
}

/// How an auth URL response with this content-type essence is read:
/// JSON as a token object, `text/plain` and `application/jwt` as a literal
/// token; anything else, or none, is refused.
pub open spec fn auth_url_body_of(essence: Option<Seq<char>>) -> Option<AuthUrlBody> {
    match essence {
        Some(e) => if e == "application/json"@ {
            Some(AuthUrlBody::Json)
        } else if e == "text/plain"@ || e == "application/jwt"@ {
            Some(AuthUrlBody::Literal)
        } else {
            None
        },
        None => None,
    }
}

/// Decide how to read an auth URL's response from its content-type essence.
pub fn auth_url_body(essence: Option<String>) -> (r: Result<AuthUrlBody, ErrorInfo>)
    ensures
        match auth_url_body_of(opt_view(essence)) {
            Some(b) => r == Ok::<AuthUrlBody, ErrorInfo>(b),
            None => r matches Err(e) && e.code == CODE_TOKEN_FAILED && (essence matches Some(
                e0) ==> e.message@ == "authUrl responded with unacceptable content-type "@ + e0@),
        },
{
    match essence {
        None => Err(ErrorInfo::new(CODE_TOKEN_FAILED, "authUrl response is missing a content-type header")),
        Some(e) => {
            if text_eq(e.as_str(), "application/json") {
                Ok(AuthUrlBody::Json)
            } else if text_eq(e.as_str(), "text/plain") || text_eq(e.as_str(), "application/jwt") {
                Ok(AuthUrlBody::Literal)
            } else {
                let mut msg = String::from_str("authUrl responded with unacceptable content-type ");
                msg.append(e.as_str());
                Err(ErrorInfo { code: CODE_TOKEN_FAILED, message: msg, status_code: None })
            }
        },
    }
}

/// The essence of an optional Content-Type header.
pub fn content_essence(content_type: Option<&str>) -> (r: Option<String>)
    ensures
        opt_view(r) == match content_type {
            Some(c) => mime_essence_of(c@),
            None => None,
        },
{
    match content_type {
        Some(c) => mime_essence(c),
        None => None,
    }
}

/// Decide how to read an auth URL's response from its Content-Type header.
pub fn auth_url_response_body(content_type: Option<&str>) -> (r: Result<AuthUrlBody, ErrorInfo>)
    ensures
        match auth_url_body_of(
            match content_type {
                Some(c) => mime_essence_of(c@),
                None => None,
            },
        ) {
            Some(b) => r == Ok::<AuthUrlBody, ErrorInfo>(b),
            None => r matches Err(e) && e.code == CODE_TOKEN_FAILED && (content_type matches Some(c)
                ==> (mime_essence_of(c@) matches Some(e0) ==> e.message@
                == "authUrl responded with unacceptable content-type "@ + e0)),
        },
{
    let essence = content_essence(content_type);
    proof {
        if essence is Some {
            assert(opt_view(essence) == Some(essence->Some_0@));
        }
    }
    auth_url_body(essence)
}

/// The body format of a response with this content-type essence.
pub open spec fn body_format_of(essence: Option<Seq<char>>) -> Option<Format> {
    match essence {
        Some(e) => if e == "application/json"@ {
            Some(Format::JSON)
        } else if e == "application/x-msgpack"@ {
            Some(Format::MessagePack)
        } else {
            None
        },
        None => None,
    }
}

/// Decide how to decode a response body from its content-type essence.
pub fn body_format(essence: Option<String>) -> (r: Result<Format, ErrorInfo>)
    ensures
        match body_format_of(opt_view(essence)) {
            Some(f) => r == Ok::<Format, ErrorInfo>(f),
            None => r matches Err(e) && e.code == CODE_BAD_CONTENT_TYPE && (essence matches Some(
                e0) ==> e.message@ == "invalid response content-type: "@ + e0@),
        },
{
    match essence {
        None => Err(ErrorInfo::new(CODE_BAD_CONTENT_TYPE, "missing content-type")),
        Some(e) => {
            if text_eq(e.as_str(), "application/json") {
                Ok(Format::JSON)
            } else if text_eq(e.as_str(), "application/x-msgpack") {
                Ok(Format::MessagePack)
            } else {
                let mut msg = String::from_str("invalid response content-type: ");
                msg.append(e.as_str());
                Err(ErrorInfo { code: CODE_BAD_CONTENT_TYPE, message: msg, status_code: None })
            }
        },
    }
}

/// Decide how to decode a response body from its Content-Type header.
pub fn response_body_format(content_type: Option<&str>) -> (r: Result<Format, ErrorInfo>)
    ensures
        match body_format_of(
            match content_type {
                Some(c) => mime_essence_of(c@),
                None => None,
            },
        ) {
            Some(f) => r == Ok::<Format, ErrorInfo>(f),
            None => r matches Err(e) && e.code == CODE_BAD_CONTENT_TYPE && (content_type matches Some(
                c) ==> (mime_essence_of(c@) matches Some(e0) ==> e.message@
                == "invalid response content-type: "@ + e0)),
        },
{
    let essence = content_essence(content_type);
    proof {
        if essence is Some {
            assert(opt_view(essence) == Some(essence->Some_0@));
        }
    }
    body_format(essence)
}

/// A 2xx status.
pub open spec fn is_success(status: u16) -> bool {
    200 <= status < 300
}

/// Whether a response with this status succeeded.
pub fn status_is_success(status: u16) -> (r: bool)
    ensures
        r == is_success(status),
{
    200 <= status && status < 300
}

/// The error for a non-2xx response: the error decoded from its body, or,
/// where that failed, a generic one carrying the status.
pub fn error_for_status(status: u16, decoded: Result<ErrorInfo, String>) -> (r: ErrorInfo)
    ensures
        match decoded {
            Ok(e) => r == e,
            Err(_) => r.code == CODE_UNEXPECTED && r.status_code == Some(status as u32),
        },
{
    match decoded {
        Ok(e) => e,
        Err(detail) => {
            let mut msg = String::from_str("Unexpected error: ");
            msg.append(detail.as_str());
            ErrorInfo { code: CODE_UNEXPECTED, message: msg, status_code: Some(status as u32) }
        },
    }
}

/// The headers every request carries: the protocol version, and the
/// Authorization for the credential when there is one.
pub fn request_headers(credential: Option<&Credential>) -> (r: Vec<(String, String)>)
    ensures
        r@.len() == if credential is Some { 2int } else { 1int },
        r@[0].0@ == "X-Ably-Version"@,
        r@[0].1@ == PROTOCOL_VERSION@,
        credential matches Some(c) ==> r@[1].0@ == "Authorization"@ && r@[1].1@
            == authorization_of(*c),
{
    let mut r: Vec<(String, String)> = Vec::new();
    r.push((String::from_str("X-Ably-Version"), String::from_str(PROTOCOL_VERSION)));
    if let Some(c) = credential {
        r.push((String::from_str("Authorization"), authorization(c)));
    }
    r
}

/// The path at which a signed token request is exchanged for a token.
pub fn token_request_path(key_name: &str) -> (r: String)
    ensures
        r@ == "/keys/"@ + key_name@ + "/requestToken"@,
{
    let mut r = String::from_str("/keys/");
    r.append(key_name);
    r.append("/requestToken");
    r
}

} // verus!
