use vstd::prelude::*;
use vstd::utf8::encode_utf8;
use crate::auth::Key;
use crate::error::{ErrorInfo, CODE_KEY_REQUIRED, CODE_NO_MEANS_TO_RENEW};
use crate::outside::{base64_of, encode_base64};
use crate::signing::{opt_view, signed_by, TokenParams, TokenRequest};
use crate::token::Token;

verus! {

/// The resolved authentication material attached to a request.
#[derive(Clone, Debug)]
pub enum Credential {
    Key(Key),
    Token(String),
}

/// A URL to request tokens from, with the HTTP method, headers and query
/// parameters to send with it.
#[derive(Clone, Debug)]
pub struct AuthUrl {
    pub url: String,
    pub method: String,
    pub headers: Option<Vec<(String, String)>>,
    pub params: Option<Vec<(String, String)>>,
}

/// A token source that fetches tokens from a URL.
#[derive(Clone, Debug)]
pub struct AuthUrlCallback {
    pub url: AuthUrl,
}

impl AuthUrlCallback {
    pub fn new(url: AuthUrl) -> (r: AuthUrlCallback)
        ensures
            r.url == url,
    {
        AuthUrlCallback { url }
    }
}

/// A way to obtain a token: sign with a key, hand back a fixed token,
/// fetch one from a URL, or call a custom callback that the caller holds.
#[derive(Clone, Debug)]
pub enum AuthCallback {
    Key(Key),
    Token(Token),
    Url(AuthUrlCallback),
    Custom,
}

/// The first step of obtaining a token.
pub enum CallbackCall {
    /// The token source answered at once, without network I/O.
    Ready(Result<Token, ErrorInfo>),
    /// Fetch a token from this URL.
    FetchUrl(AuthUrl),
    /// Call the caller's custom callback with these parameters.
    Custom(TokenParams),
}

/// A builder for a request for a token.
pub struct RequestTokenBuilder {
    pub callback: Option<AuthCallback>,
    pub params: TokenParams,
}

impl RequestTokenBuilder {
    pub fn new() -> (r: RequestTokenBuilder)
        ensures
            r.callback is None,
            r.params == TokenParams::new_spec(),
    {
        RequestTokenBuilder { callback: None, params: TokenParams::new() }
    }

    /// Use a key as the token source.
    pub fn key(self, key: Key) -> (r: RequestTokenBuilder)
        ensures
            r.callback == Some(AuthCallback::Key(key)),
            r.params == self.params,
    {
        self.auth_callback(AuthCallback::Key(key))
    }

    /// Use a fixed token as the token source.
    pub fn token(self, token: Token) -> (r: RequestTokenBuilder)
        ensures
            r.callback == Some(AuthCallback::Token(token)),
            r.params == self.params,
    {
        self.auth_callback(AuthCallback::Token(token))
    }

    /// Use a URL as the token source.
    pub fn auth_url(self, url: AuthUrl) -> (r: RequestTokenBuilder)
        ensures
            r.callback == Some(AuthCallback::Url(AuthUrlCallback { url })),
            r.params == self.params,
    {
        self.auth_callback(AuthCallback::Url(AuthUrlCallback::new(url)))
    }

    /// Use the given token source.
    pub fn auth_callback(self, callback: AuthCallback) -> (r: RequestTokenBuilder)
        ensures
            r.callback == Some(callback),
            r.params == self.params,
    {
        RequestTokenBuilder { callback: Some(callback), params: self.params }
    }

    /// Replace the token parameters.
    pub fn params(self, params: TokenParams) -> (r: RequestTokenBuilder)
        ensures
            r.callback == self.callback,
            r.params == params,
    {
        RequestTokenBuilder { callback: self.callback, params }
    }

    /// Set the desired capability.
    pub fn capability(self, capability: &str) -> (r: RequestTokenBuilder)
        ensures
            r.callback == self.callback,
            opt_view(r.params.capability) == Some(capability@),
            r.params.client_id == self.params.client_id,
            r.params.nonce == self.params.nonce,
            r.params.timestamp == self.params.timestamp,
            r.params.ttl == self.params.ttl,
    {
        let mut b = self;
        b.params.capability = Some(String::from_str(capability));
        b
    }

    /// Set the desired client id.
    pub fn client_id(self, client_id: &str) -> (r: RequestTokenBuilder)
        ensures
            r.callback == self.callback,
            opt_view(r.params.client_id) == Some(client_id@),
            r.params.capability == self.params.capability,
            r.params.nonce == self.params.nonce,
            r.params.timestamp == self.params.timestamp,
            r.params.ttl == self.params.ttl,
    {
        let mut b = self;
        b.params.client_id = Some(String::from_str(client_id));
        b
    }

    /// Set the desired time to live, in seconds.
    pub fn ttl(self, ttl: i64) -> (r: RequestTokenBuilder)
        ensures
            r.callback == self.callback,
            r.params == (TokenParams { ttl: Some(ttl), ..self.params }),
    {
        let mut b = self;
        b.params.ttl = Some(ttl);
        b
    }

    /// Set the timestamp, in milliseconds since the Unix epoch.
    pub fn timestamp(self, timestamp: i64) -> (r: RequestTokenBuilder)
        ensures
            r.callback == self.callback,
            r.params == (TokenParams { timestamp: Some(timestamp), ..self.params }),
    {
        let mut b = self;
        b.params.timestamp = Some(timestamp);
        b
    }

    /// Start obtaining a token from the configured source. With none, fail
    /// at once; a key signs the parameters and a fixed token is handed back
    /// as it is, both without I/O; a URL or a custom callback is left to
    /// the caller to run.
    pub fn begin(self) -> (r: Result<CallbackCall, ErrorInfo>)
        ensures
            match self.callback {
                None => r matches Err(e) && e.code == CODE_NO_MEANS_TO_RENEW,
                Some(AuthCallback::Key(k)) => r matches Ok(CallbackCall::Ready(t)) && match t {
                    Ok(Token::Request(req)) => signed_by(self.params, k, Ok(req)),
                    Ok(_) => false,
                    Err(e) => signed_by(self.params, k, Err(e)),
                },
                Some(AuthCallback::Token(t)) => r == Ok::<CallbackCall, ErrorInfo>(
                    CallbackCall::Ready(Ok(t)),
                ),
                Some(AuthCallback::Url(u)) => r == Ok::<CallbackCall, ErrorInfo>(
                    CallbackCall::FetchUrl(u.url),
                ),
                Some(AuthCallback::Custom) => r == Ok::<CallbackCall, ErrorInfo>(
                    CallbackCall::Custom(self.params),
                ),
            },
    {
        match self.callback {
            None => Err(ErrorInfo::new(CODE_NO_MEANS_TO_RENEW, "no means provided to renew auth token")),
            Some(AuthCallback::Key(k)) => Ok(CallbackCall::Ready(k.sign(self.params))),
            Some(AuthCallback::Token(t)) => Ok(CallbackCall::Ready(Ok(t))),
            Some(AuthCallback::Url(u)) => Ok(CallbackCall::FetchUrl(u.url)),
            Some(AuthCallback::Custom) => Ok(CallbackCall::Custom(self.params)),
        }
    }
}

/// A builder for a token request signed by a local API key.
pub struct CreateTokenRequestBuilder {
    pub key: Option<Key>,
    pub params: TokenParams,
}

impl CreateTokenRequestBuilder {
    pub fn new() -> (r: CreateTokenRequestBuilder)
        ensures
            r.key is None,
            r.params == TokenParams::new_spec(),
    {
        CreateTokenRequestBuilder { key: None, params: TokenParams::new() }
    }

    /// Set the key that signs the request.
    pub fn key(self, key: Key) -> (r: CreateTokenRequestBuilder)
        ensures
            r.key == Some(key),
            r.params == self.params,
    {
        CreateTokenRequestBuilder { key: Some(key), params: self.params }
    }

    /// Set the desired capability.
    pub fn capability(self, capability: &str) -> (r: CreateTokenRequestBuilder)
        ensures
            r.key == self.key,
            opt_view(r.params.capability) == Some(capability@),
            r.params.client_id == self.params.client_id,
            r.params.nonce == self.params.nonce,
            r.params.timestamp == self.params.timestamp,
            r.params.ttl == self.params.ttl,
    {
        let mut b = self;
        b.params.capability = Some(String::from_str(capability));
        b
    }

    /// Set the desired client id.
    pub fn client_id(self, client_id: &str) -> (r: CreateTokenRequestBuilder)
        ensures
            r.key == self.key,
            opt_view(r.params.client_id) == Some(client_id@),
            r.params.capability == self.params.capability,
            r.params.nonce == self.params.nonce,
            r.params.timestamp == self.params.timestamp,
            r.params.ttl == self.params.ttl,
    {
        let mut b = self;
        b.params.client_id = Some(String::from_str(client_id));
        b
    }

    /// Set the desired time to live, in seconds.
    pub fn ttl(self, ttl: i64) -> (r: CreateTokenRequestBuilder)
        ensures
            r.key == self.key,
            r.params == (TokenParams { ttl: Some(ttl), ..self.params }),
    {
        let mut b = self;
        b.params.ttl = Some(ttl);
        b
    }

    /// Set the timestamp, in milliseconds since the Unix epoch.
    pub fn timestamp(self, timestamp: i64) -> (r: CreateTokenRequestBuilder)
        ensures
            r.key == self.key,
            r.params == (TokenParams { timestamp: Some(timestamp), ..self.params }),
    {
        let mut b = self;
        b.params.timestamp = Some(timestamp);
        b
    }

    /// Sign the request: it needs a key.
    pub fn sign(self) -> (r: Result<TokenRequest, ErrorInfo>)
        ensures
            match self.key {
                None => r matches Err(e) && e.code == CODE_KEY_REQUIRED,
                Some(k) => signed_by(self.params, k, r),
            },
    {
        match self.key {
            None => Err(ErrorInfo::new(CODE_KEY_REQUIRED, "API key is required to create signed token requests")),
            Some(k) => self.params.sign(&k),
        }
    }
}

/// The configuration that authentication reads. Nothing here is changed.
#[derive(Clone, Debug)]
pub struct ClientOptions {
    pub key: Option<Key>,
    pub token: Option<Token>,
    pub client_id: Option<String>,
    pub auth_callback: Option<AuthCallback>,
    pub auth_url: Option<String>,
    pub auth_method: String,
    pub auth_headers: Option<Vec<(String, String)>>,
    pub auth_params: Option<Vec<(String, String)>>,
    pub default_token_params: Option<TokenParams>,
    pub use_token_auth: bool,
}

/// The token source that the options select, in strict priority: an
/// explicit callback, then an auth URL, then a key, then a fixed token.
pub open spec fn resolved_callback(o: ClientOptions) -> Option<AuthCallback> {
    if o.auth_callback is Some {
        o.auth_callback
    } else if let Some(url) = o.auth_url {
        Some(
            AuthCallback::Url(
                AuthUrlCallback {
                    url: AuthUrl {
                        url,
                        method: o.auth_method,
                        headers: o.auth_headers,
                        params: o.auth_params,
                    },
                },
            ),
        )
    } else if let Some(k) = o.key {
        Some(AuthCallback::Key(k))
    } else if let Some(t) = o.token {
        Some(AuthCallback::Token(t))
    } else {
        None
    }
}

/// The token parameters configured by default, before the client id.
pub open spec fn base_params(o: ClientOptions) -> TokenParams {
    match o.default_token_params {
        Some(p) => p,
        None => TokenParams::new_spec(),
    }
}

/// With both an auth URL and a key configured and no explicit callback,
/// tokens come from the URL, not the key.
pub proof fn lemma_url_before_key(o: ClientOptions)
    requires
        o.auth_callback is None,
        o.auth_url is Some,
        o.key is Some,
    ensures
        resolved_callback(o) matches Some(AuthCallback::Url(_)),
{
}

/// The value of an Authorization header for a credential: `Basic` with
/// the base64 of `name:secret`, or `Bearer` with the token.
pub open spec fn authorization_of(c: Credential) -> Seq<char> {
    match c {
        Credential::Key(k) => "Basic "@ + base64_of(encode_utf8(k.name@ + ":"@ + k.value@)),
        Credential::Token(t) => "Bearer "@ + t@,
    }
}

/// The Authorization header value that `credential` gives.
pub fn authorization(credential: &Credential) -> (r: String)
    ensures
        r@ == authorization_of(*credential),
{
    match credential {
        Credential::Key(k) => {
            let mut pair = String::from_str(k.name.as_str());
            pair.append(":");
            pair.append(k.value.as_str());
            let encoded = encode_base64(&pair.as_str().as_bytes_vec());
            let mut r = String::from_str("Basic ");
            r.append(encoded.as_str());
            r
        },
        Credential::Token(t) => {
            let mut r = String::from_str("Bearer ");
            r.append(t.as_str());
            r
        },
    }
}

/// How to authenticate an outgoing request.
pub enum AuthPlan {
    /// Set this Authorization header; no round trip is needed.
    Header(String),
    /// Obtain a token first, then send it as a bearer credential.
    RequestToken,
}

/// Authentication over the client's options.
#[derive(Clone, Debug)]
pub struct Auth {
    pub opts: ClientOptions,
}

impl Auth {
    pub fn new(opts: ClientOptions) -> (r: Auth)
        ensures
            r.opts == opts,
    {
        Auth { opts }
    }

    /// Start building a token request signed by the configured key, with
    /// the configured client id.
    pub fn create_token_request(self) -> (r: CreateTokenRequestBuilder)
        ensures
            r.key == self.opts.key,
            r.params == (TokenParams { client_id: r.params.client_id, ..TokenParams::new_spec() }),
            opt_view(r.params.client_id) == opt_view(self.opts.client_id),
    {
        let mut builder = CreateTokenRequestBuilder::new();
        if let Some(key) = self.opts.key {
            builder = builder.key(key);
        }
        if let Some(client_id) = self.opts.client_id {
            builder = builder.client_id(client_id.as_str());
        }
        builder
    }

    /// Start building a request for a token from the source that the
    /// options select, with the default parameters and then the configured
    /// client id on top.
    pub fn request_token(self) -> (r: RequestTokenBuilder)
        ensures
            r.callback == resolved_callback(self.opts),
            r.params == (TokenParams { client_id: r.params.client_id, ..base_params(self.opts) }),
            opt_view(r.params.client_id) == match self.opts.client_id {
                Some(c) => Some(c@),
                None => opt_view(base_params(self.opts).client_id),
            },
    {
        let o = self.opts;
        let mut builder = RequestTokenBuilder::new();
        if let Some(callback) = o.auth_callback {
            builder = builder.auth_callback(callback);
        } else if let Some(url) = o.auth_url {
            builder = builder.auth_url(
                AuthUrl { url, method: o.auth_method, headers: o.auth_headers, params: o.auth_params },
            );
        } else if let Some(key) = o.key {
            builder = builder.key(key);
        } else if let Some(token) = o.token {
            builder = builder.token(token);
        }
        if let Some(params) = o.default_token_params {
            builder = builder.params(params);
        }
        if let Some(client_id) = o.client_id {
            builder = builder.client_id(client_id.as_str());
        }
        builder
    }

    /// How to authenticate an outgoing request: with a key and token auth
    /// not forced, Basic auth straight from the key; else via a token.
    pub fn auth_plan(&self) -> (r: AuthPlan)
        ensures
            match self.opts.key {
                Some(k) if !self.opts.use_token_auth => r matches AuthPlan::Header(h) && h@
                    == authorization_of(Credential::Key(k)),
                _ => r is RequestToken,
            },
    {
        if let Some(ref key) = self.opts.key {
            if !self.opts.use_token_auth {
                return AuthPlan::Header(authorization(&Credential::Key(key.clone_key())));
            }
        }
        AuthPlan::RequestToken
    }
}

} // verus!
