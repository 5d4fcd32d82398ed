use vstd::prelude::*;
use crate::error::{ErrorInfo, CODE_BAD_REQUEST, CODE_TOKEN_FAILED};
use crate::signing::TokenRequest;

verus! {

/// The longest token accepted, in bytes.
pub const MAX_TOKEN_LENGTH: usize = 128 * 1024;

/// The HTTP status attached to token failures.
pub const STATUS_UNAUTHORIZED: u32 = 401;

/// A token issued by the service, with what is known of it.
#[derive(Clone, Debug)]
pub struct TokenDetails {
    pub token: String,
    /// Milliseconds since the Unix epoch.
    pub expires: Option<i64>,
    /// Milliseconds since the Unix epoch.
    pub issued: Option<i64>,
    pub capability: Option<String>,
    pub client_id: Option<String>,
}

/// What a token source may hand back: a signed request still to be
/// exchanged, issued token details, or a bare token string.
#[derive(Clone, Debug)]
pub enum Token {
    Request(TokenRequest),
    Details(TokenDetails),
    Literal(String),
}

/// The length of a token in bytes, as sent on the wire.
pub open spec fn token_bytes(t: Seq<char>) -> nat {
    vstd::utf8::encode_utf8(t).len()
}

impl TokenDetails {
    /// Details that carry only a token string.
    pub fn from(token: String) -> (r: TokenDetails)
        ensures
            r.token == token,
            r.expires is None,
            r.issued is None,
            r.capability is None,
            r.client_id is None,
    {
        TokenDetails { token, expires: None, issued: None, capability: None, client_id: None }
    }
}

impl Token {
    /// A bare token string.
    pub fn from(s: String) -> (r: Token)
        ensures
            r == Token::Literal(s),
    {
        Token::Literal(s)
    }
}

/// Refuse a token longer than `MAX_TOKEN_LENGTH` bytes, whatever produced it.
pub fn check_token_length(details: TokenDetails) -> (r: Result<TokenDetails, ErrorInfo>)
    ensures
        guarded(details, r),
{
    if details.token.as_str().as_bytes().len() > MAX_TOKEN_LENGTH {
        return Err(ErrorInfo::with_status(
            CODE_TOKEN_FAILED,
            "Token string exceeded max permitted length",
            STATUS_UNAUTHORIZED,
        ));
    }
    Ok(details)
}

/// A callback failure as the caller sees it: the generic bad-input code
/// becomes a token failure with status 401; anything else is unchanged.
pub open spec fn normalized(e: ErrorInfo) -> ErrorInfo {
    if e.code == CODE_BAD_REQUEST {
        ErrorInfo { code: CODE_TOKEN_FAILED, status_code: Some(STATUS_UNAUTHORIZED), ..e }
    } else {
        e
    }
}

/// Map a token source's failure onto the auth failure taxonomy.
pub fn normalize_callback_error(e: ErrorInfo) -> (r: ErrorInfo)
    ensures
        r == normalized(e),
{
    let mut e = e;
    if e.code == CODE_BAD_REQUEST {
        e.code = CODE_TOKEN_FAILED;
        e.status_code = Some(STATUS_UNAUTHORIZED);
    }
    e
}

/// The next move once a token source has answered.
pub enum TokenOutcome {
    /// Exchange this signed request with the service for token details.
    Exchange(TokenRequest),
    /// The answer to hand the caller.
    Done(Result<TokenDetails, ErrorInfo>),
}

/// Details that carry only the token string `s`.
pub open spec fn literal_details(s: String) -> TokenDetails {
    TokenDetails { token: s, expires: None, issued: None, capability: None, client_id: None }
}

/// `r` is what the size guard makes of `d`: `d` itself when its token is
/// short enough, else the oversize failure.
pub open spec fn guarded(d: TokenDetails, r: Result<TokenDetails, ErrorInfo>) -> bool {
    if token_bytes(d.token@) <= MAX_TOKEN_LENGTH {
        r == Ok::<TokenDetails, ErrorInfo>(d)
    } else {
        r matches Err(e) && e.code == CODE_TOKEN_FAILED && e.status_code == Some(STATUS_UNAUTHORIZED)
    }
}

/// What follows from a token source's answer: a signed request is to be
/// exchanged, a literal is wrapped in details, details are taken as they
/// are, with the size guard on both; a failure is normalized.
pub fn on_token(answer: Result<Token, ErrorInfo>) -> (r: TokenOutcome)
    ensures
        match answer {
            Ok(Token::Request(req)) => r == TokenOutcome::Exchange(req),
            Ok(Token::Literal(s)) => r matches TokenOutcome::Done(d) && guarded(literal_details(s), d),
            Ok(Token::Details(d0)) => r matches TokenOutcome::Done(d) && guarded(d0, d),
            Err(e) => r == TokenOutcome::Done(Err(normalized(e))),
        },
{
    match answer {
        Ok(Token::Request(req)) => TokenOutcome::Exchange(req),
        Ok(Token::Literal(s)) => TokenOutcome::Done(check_token_length(TokenDetails::from(s))),
        Ok(Token::Details(d)) => TokenOutcome::Done(check_token_length(d)),
        Err(e) => TokenOutcome::Done(Err(normalize_callback_error(e))),
    }
}

/// What the exchange of a signed request gives the caller: its failure as
/// it came, or the details after the size guard.
pub fn on_exchange(answer: Result<TokenDetails, ErrorInfo>) -> (r: Result<TokenDetails, ErrorInfo>)
    ensures
        match answer {
            Ok(d) => guarded(d, r),
            Err(e) => r == Err::<TokenDetails, ErrorInfo>(e),
        },
{
    match answer {
        Ok(d) => check_token_length(d),
        Err(e) => Err(e),
    }
}

} // verus!
