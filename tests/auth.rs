use ably_auth::auth::Key;
use ably_auth::credential::{
    authorization, Auth, AuthCallback, AuthPlan, CallbackCall, ClientOptions, Credential,
    CreateTokenRequestBuilder, RequestTokenBuilder,
};
use ably_auth::signing::{compute_mac, TokenParams, TokenRequest};
use ably_auth::token::{
    check_token_length, normalize_callback_error, on_exchange, on_token, Token, TokenDetails,
    TokenOutcome, MAX_TOKEN_LENGTH,
};
use ably_auth::error::ErrorInfo;

fn key() -> Key {
    Key::try_from("ABC123.DEF456:XXXXXXXXXXXX").unwrap()
}

fn options() -> ClientOptions {
    ClientOptions {
        key: None,
        token: None,
        client_id: None,
        auth_callback: None,
        auth_url: None,
        auth_method: "GET".to_string(),
        auth_headers: None,
        auth_params: None,
        default_token_params: None,
        use_token_auth: false,
    }
}

fn fixed_params() -> TokenParams {
    let mut p = TokenParams::new();
    p.ttl = Some(3600);
    p.capability = Some("{\"*\":[\"*\"]}".to_string());
    p.client_id = Some("client@example.com".to_string());
    p.timestamp = Some(1635552598723);
    p.nonce = Some("abcdef0123456789".to_string());
    p
}

#[test]
fn key_parses_name_and_secret() {
    let k = Key::try_from("name:secret").unwrap();
    assert_eq!(k.name, "name");
    assert_eq!(k.value, "secret");
}

#[test]
fn key_value_may_hold_colons() {
    let k = Key::try_from("app.key:se:cr:et").unwrap();
    assert_eq!(k.name, "app.key");
    assert_eq!(k.value, "se:cr:et");
}

#[test]
fn key_without_colon_or_empty_is_refused() {
    for s in ["not-a-valid-key", "", ":secret", "name:", ":"] {
        let e = Key::try_from(s).unwrap_err();
        assert_eq!(e.code, 40000, "{}", s);
    }
}

#[test]
fn mac_matches_known_value() {
    let req = fixed_params().sign(&key()).unwrap();
    assert_eq!(req.mac.as_deref(), Some("6KKiYeblh6nwFDHdPbpOLZeI4lv66yZhXAop0KqxC4U="));
    assert_eq!(req.key_name, "ABC123.DEF456");
    assert_eq!(req.timestamp, 1635552598723);
    assert_eq!(req.nonce, "abcdef0123456789");
}

#[test]
fn mac_with_absent_fields_and_negative_timestamp() {
    let k = Key::try_from("ABC123.DEF456:secret").unwrap();
    let req = TokenRequest {
        key_name: "ABC123.DEF456".to_string(),
        timestamp: -5,
        capability: None,
        client_id: None,
        mac: None,
        nonce: "n".to_string(),
        ttl: None,
    };
    assert_eq!(compute_mac(&k, &req), "QCXRqgay4APNWj3om3ibvqwshFFMkbPaCN65p00m1v4=");
}

#[test]
fn signing_is_reproducible() {
    let a = fixed_params().sign(&key()).unwrap();
    let b = fixed_params().sign(&key()).unwrap();
    assert_eq!(a.mac, b.mac);
}

#[test]
fn changing_a_signed_field_changes_the_mac() {
    let base = fixed_params().sign(&key()).unwrap().mac;
    let mut p = fixed_params();
    p.ttl = None;
    assert_ne!(p.sign(&key()).unwrap().mac, base);
    let mut p = fixed_params();
    p.capability = None;
    assert_ne!(p.sign(&key()).unwrap().mac, base);
    let mut p = fixed_params();
    p.timestamp = Some(1635552598724);
    assert_ne!(p.sign(&key()).unwrap().mac, base);
    let mut p = fixed_params();
    p.nonce = Some("abcdef012345678X".to_string());
    assert_ne!(p.sign(&key()).unwrap().mac, base);
    let mut p = fixed_params();
    p.client_id = Some("other@example.com".to_string());
    assert_ne!(p.sign(&key()).unwrap().mac, base);
    let renamed = Key::try_from("ABC123.DEF457:XXXXXXXXXXXX").unwrap();
    assert_ne!(fixed_params().sign(&renamed).unwrap().mac, base);
}

#[test]
fn empty_client_id_fails_signing() {
    let mut p = fixed_params();
    p.client_id = Some(String::new());
    let e = p.sign(&key()).unwrap_err();
    assert_eq!(e.code, 40012);
}

#[test]
fn missing_nonce_and_timestamp_are_generated() {
    let req = TokenParams::new().sign(&key()).unwrap();
    assert_eq!(req.nonce.len(), 16);
    assert!(req.nonce.chars().all(|c| c.is_ascii_alphanumeric()));
    assert!(req.timestamp > 1_600_000_000_000);
    assert!(req.mac.is_some());
    assert_eq!(req.client_id, None);
}

#[test]
fn create_token_request_needs_a_key() {
    let e = CreateTokenRequestBuilder::new().sign().unwrap_err();
    assert_eq!(e.code, 40106);
    let req = CreateTokenRequestBuilder::new()
        .key(key())
        .client_id("c")
        .capability("{}")
        .ttl(60)
        .timestamp(1000)
        .sign()
        .unwrap();
    assert_eq!(req.client_id.as_deref(), Some("c"));
    assert_eq!(req.capability.as_deref(), Some("{}"));
    assert_eq!(req.ttl, Some(60));
    assert_eq!(req.timestamp, 1000);
}

#[test]
fn auth_create_token_request_uses_configured_key_and_client_id() {
    let mut o = options();
    o.key = Some(key());
    o.client_id = Some("me".to_string());
    let req = Auth::new(o).create_token_request().sign().unwrap();
    assert_eq!(req.key_name, "ABC123.DEF456");
    assert_eq!(req.client_id.as_deref(), Some("me"));
}

#[test]
fn token_of_max_length_is_accepted() {
    let d = TokenDetails::from("a".repeat(128 * 1024));
    assert_eq!(MAX_TOKEN_LENGTH, 128 * 1024);
    assert_eq!(check_token_length(d).unwrap().token.len(), 128 * 1024);
}

#[test]
fn token_over_max_length_is_rejected() {
    let d = TokenDetails::from("a".repeat(128 * 1024 + 1));
    let e = check_token_length(d).unwrap_err();
    assert_eq!(e.code, 40170);
    assert_eq!(e.status_code, Some(401));
}

#[test]
fn oversize_literal_and_exchanged_tokens_are_rejected() {
    match on_token(Ok(Token::Literal("b".repeat(128 * 1024 + 1)))) {
        TokenOutcome::Done(Err(e)) => assert_eq!(e.code, 40170),
        _ => panic!("expected an oversize error"),
    }
    let e = on_exchange(Ok(TokenDetails::from("c".repeat(128 * 1024 + 1)))).unwrap_err();
    assert_eq!(e.status_code, Some(401));
}

#[test]
fn url_wins_over_key() {
    let mut o = options();
    o.key = Some(key());
    o.auth_url = Some("https://example.com/auth".to_string());
    let b = Auth::new(o).request_token();
    match b.callback {
        Some(AuthCallback::Url(u)) => {
            assert_eq!(u.url.url, "https://example.com/auth");
            assert_eq!(u.url.method, "GET");
        },
        _ => panic!("expected the URL callback"),
    }
}

#[test]
fn explicit_callback_wins_and_client_id_overrides_defaults() {
    let mut o = options();
    o.key = Some(key());
    o.auth_url = Some("https://example.com/auth".to_string());
    o.auth_callback = Some(AuthCallback::Custom);
    let mut defaults = TokenParams::new();
    defaults.client_id = Some("default".to_string());
    defaults.ttl = Some(10);
    o.default_token_params = Some(defaults);
    o.client_id = Some("configured".to_string());
    let b = Auth::new(o).request_token();
    assert!(matches!(b.callback, Some(AuthCallback::Custom)));
    assert_eq!(b.params.client_id.as_deref(), Some("configured"));
    assert_eq!(b.params.ttl, Some(10));
}

#[test]
fn key_then_token_then_nothing() {
    let mut o = options();
    o.key = Some(key());
    o.token = Some(Token::from("tok".to_string()));
    assert!(matches!(Auth::new(o.clone()).request_token().callback, Some(AuthCallback::Key(_))));
    o.key = None;
    assert!(matches!(Auth::new(o.clone()).request_token().callback, Some(AuthCallback::Token(_))));
    o.token = None;
    let e = match Auth::new(o).request_token().begin() {
        Err(e) => e,
        Ok(_) => panic!("expected no means to renew"),
    };
    assert_eq!(e.code, 40171);
}

#[test]
fn key_callback_signs_without_io() {
    let b = RequestTokenBuilder::new().key(key()).client_id("x").timestamp(5);
    match b.begin() {
        Ok(CallbackCall::Ready(Ok(Token::Request(req)))) => {
            assert_eq!(req.client_id.as_deref(), Some("x"));
            assert_eq!(req.timestamp, 5);
            assert!(req.mac.is_some());
        },
        _ => panic!("expected a signed request"),
    }
    match on_token(key().sign(TokenParams::new())) {
        TokenOutcome::Exchange(req) => assert_eq!(req.key_name, "ABC123.DEF456"),
        _ => panic!("expected an exchange"),
    }
}

#[test]
fn literal_token_callback_is_returned_unchanged() {
    let b = RequestTokenBuilder::new().token(Token::from("abc123".to_string()));
    match b.begin() {
        Ok(CallbackCall::Ready(Ok(Token::Literal(s)))) => assert_eq!(s, "abc123"),
        _ => panic!("expected the literal"),
    }
    match on_token(Ok(Token::Literal("abc123".to_string()))) {
        TokenOutcome::Done(Ok(d)) => assert_eq!(d.token, "abc123"),
        _ => panic!("expected details"),
    }
}

#[test]
fn generic_callback_error_is_normalized() {
    let e = normalize_callback_error(ErrorInfo::new(40000, "bad"));
    assert_eq!(e.code, 40170);
    assert_eq!(e.status_code, Some(401));
    assert_eq!(e.message, "bad");
    match on_token(Err(ErrorInfo::new(40000, "bad"))) {
        TokenOutcome::Done(Err(e)) => {
            assert_eq!(e.code, 40170);
            assert_eq!(e.status_code, Some(401));
        },
        _ => panic!("expected an error"),
    }
}

#[test]
fn other_callback_errors_are_kept() {
    let e = normalize_callback_error(ErrorInfo::with_status(50000, "down", 503));
    assert_eq!(e.code, 50000);
    assert_eq!(e.status_code, Some(503));
}

#[test]
fn basic_and_bearer_authorization() {
    assert_eq!(
        authorization(&Credential::Key(key())),
        "Basic QUJDMTIzLkRFRjQ1NjpYWFhYWFhYWFhYWFg="
    );
    assert_eq!(authorization(&Credential::Token("tok".to_string())), "Bearer tok");
}

#[test]
fn auth_plan_prefers_basic_unless_token_auth_forced() {
    let mut o = options();
    o.key = Some(key());
    match Auth::new(o.clone()).auth_plan() {
        AuthPlan::Header(h) => assert_eq!(h, "Basic QUJDMTIzLkRFRjQ1NjpYWFhYWFhYWFhYWFg="),
        AuthPlan::RequestToken => panic!("expected basic auth"),
    }
    o.use_token_auth = true;
    assert!(matches!(Auth::new(o).auth_plan(), AuthPlan::RequestToken));
}
