use ably_auth::credential::Credential;
use ably_auth::auth::Key;
use ably_auth::http::{
    auth_url_body, auth_url_response_body, body_format, error_for_status, request_headers,
    response_body_format, status_is_success, text_eq, token_request_path, AuthUrlBody, Format,
};
use ably_auth::link::Link;
use ably_auth::paginate::{
    after_send, first_page, handle_items, next_link, PageState, PageStep, PaginatedItemHandler,
};
use ably_auth::error::ErrorInfo;
use ably_auth::token::Token;

#[test]
fn text_plain_auth_url_response_is_a_literal_token() {
    let kind = auth_url_response_body(Some("text/plain")).unwrap();
    assert_eq!(kind, AuthUrlBody::Literal);
    let body = "abc123".to_string();
    match Token::from(body) {
        Token::Literal(s) => assert_eq!(s, "abc123"),
        _ => panic!("expected a literal"),
    }
    assert_eq!(auth_url_response_body(Some("application/jwt")).unwrap(), AuthUrlBody::Literal);
    assert_eq!(
        auth_url_response_body(Some("text/plain; charset=utf-8")).unwrap(),
        AuthUrlBody::Literal
    );
}

#[test]
fn json_auth_url_response_is_decoded_as_a_token() {
    assert_eq!(auth_url_response_body(Some("application/json")).unwrap(), AuthUrlBody::Json);
}

#[test]
fn html_auth_url_response_is_refused() {
    let e = auth_url_response_body(Some("text/html")).unwrap_err();
    assert_eq!(e.code, 40170);
    assert_eq!(e.message, "authUrl responded with unacceptable content-type text/html");
    let e = auth_url_response_body(None).unwrap_err();
    assert_eq!(e.code, 40170);
    let e = auth_url_body(None).unwrap_err();
    assert_eq!(e.code, 40170);
}

#[test]
fn response_body_format_dispatch() {
    assert_eq!(response_body_format(Some("application/json")).unwrap(), Format::JSON);
    assert_eq!(
        response_body_format(Some("application/x-msgpack")).unwrap(),
        Format::MessagePack
    );
    let e = response_body_format(Some("text/plain")).unwrap_err();
    assert_eq!(e.code, 40001);
    assert_eq!(e.message, "invalid response content-type: text/plain");
    assert_eq!(response_body_format(None).unwrap_err().code, 40001);
    assert_eq!(body_format(Some("application/json".to_string())).unwrap(), Format::JSON);
}

#[test]
fn status_classification_and_errors() {
    assert!(status_is_success(200));
    assert!(status_is_success(299));
    assert!(!status_is_success(300));
    assert!(!status_is_success(500));
    let e = error_for_status(500, Err("bad body".to_string()));
    assert_eq!(e.code, 50000);
    assert_eq!(e.status_code, Some(500));
    let e = error_for_status(404, Ok(ErrorInfo::with_status(40400, "not found", 404)));
    assert_eq!(e.code, 40400);
}

#[test]
fn headers_carry_version_and_credential() {
    let h = request_headers(None);
    assert_eq!(h.len(), 1);
    assert_eq!(h[0].0, "X-Ably-Version");
    assert_eq!(h[0].1, "1.2");
    let k = Key::try_from("a:b").unwrap();
    let h = request_headers(Some(&Credential::Key(k)));
    assert_eq!(h[1].0, "Authorization");
    assert_eq!(h[1].1, "Basic YTpi");
}

#[test]
fn token_request_path_names_the_key() {
    assert_eq!(token_request_path("ABC123.DEF456"), "/keys/ABC123.DEF456/requestToken");
}

#[test]
fn text_equality() {
    assert!(text_eq("abc", "abc"));
    assert!(!text_eq("abc", "abd"));
    assert!(!text_eq("abc", "ab"));
}

#[test]
fn link_header_parses() {
    let l = Link::try_from(
        "<./messages?limit=10&direction=forwards&cont=true&format=json&firstStart=0&end=1635552598723>; rel=\"next\"",
    )
    .unwrap();
    assert_eq!(l.rel, "next");
    assert_eq!(l.params, "limit=10&direction=forwards&cont=true&format=json&firstStart=0&end=1635552598723");
    let l = Link::try_from("  <./x?a=1>;rel=\"first\"").unwrap();
    assert_eq!(l.rel, "first");
    assert_eq!(l.params, "a=1");
}

#[test]
fn malformed_link_headers_are_refused() {
    for s in [
        "",
        "./x?a=1; rel=\"next\"",
        "<./x>; rel=\"next\"",
        "<?a=1>; rel=\"next\"",
        "<./x?>; rel=\"next\"",
        "<./x?a=1>; rel=\"\"",
        "<./x?a=1>; rel=next",
        "<./x?a=1>, rel=\"next\"",
        "<./x?a\n=1>; rel=\"next\"",
    ] {
        assert_eq!(Link::try_from(s).unwrap_err().code, 40004, "{:?}", s);
    }
}

#[test]
fn next_link_skips_other_and_malformed_links() {
    let hs = vec![
        "garbage".to_string(),
        "<./x?a=1>; rel=\"first\"".to_string(),
        "<./x?a=2>; rel=\"next\"".to_string(),
    ];
    assert_eq!(next_link(&hs).unwrap().params, "a=2");
    assert!(next_link(&vec!["<./x?a=1>; rel=\"first\"".to_string()]).is_none());
}

#[test]
fn two_pages_then_end() {
    let mut yielded: Vec<Result<u32, ErrorInfo>> = Vec::new();
    let mut sent_queries: Vec<Option<String>> = Vec::new();
    let responses = [
        vec!["<./x?limit=10&cont=true>; rel=\"next\"".to_string()],
        vec![],
    ];
    let mut state = PageState::start(Ok("req"));
    let mut page: u32 = 0;
    loop {
        let (step, next) = state.step();
        state = next;
        match step {
            PageStep::End => break,
            PageStep::Fail(e) => yielded.push(Err(e)),
            PageStep::Send(req, query) => {
                sent_queries.push(query);
                let links = &responses[page as usize];
                let (item, next) = after_send(Ok(page), Some(req), links);
                page += 1;
                yielded.push(item);
                state = next;
            },
        }
    }
    assert_eq!(yielded.len(), 2);
    assert!(yielded.iter().all(|r| r.is_ok()));
    assert_eq!(sent_queries, vec![None, Some("limit=10&cont=true".to_string())]);
}

#[test]
fn failed_first_page_yields_one_error() {
    let mut yielded: Vec<Result<u32, ErrorInfo>> = Vec::new();
    let mut state = PageState::start(Ok("req"));
    loop {
        let (step, next) = state.step();
        state = next;
        match step {
            PageStep::End => break,
            PageStep::Fail(e) => yielded.push(Err(e)),
            PageStep::Send(req, _) => {
                let links = vec!["<./x?a=1>; rel=\"next\"".to_string()];
                let failed = Err(error_for_status(500, Err("no body".to_string())));
                let (item, next) = after_send::<&str, u32>(failed, Some(req), &links);
                yielded.push(item);
                state = next;
            },
        }
    }
    assert_eq!(yielded.len(), 1);
    assert_eq!(yielded[0].as_ref().unwrap_err().status_code, Some(500));
}

#[test]
fn unbuildable_request_yields_its_error_then_ends() {
    let mut state: PageState<&str> = PageState::start(Err(ErrorInfo::new(40000, "bad url")));
    let (step, next) = state.step();
    assert!(matches!(step, PageStep::Fail(_)));
    state = next;
    assert!(matches!(state.step().0, PageStep::End));
}

#[test]
fn uncopyable_request_with_next_link_is_not_pageable() {
    let links = vec!["<./x?a=1>; rel=\"next\"".to_string()];
    let (item, next) = after_send::<&str, u32>(Ok(1), None, &links);
    assert!(item.is_ok());
    match next.step().0 {
        PageStep::Fail(e) => assert_eq!(e.code, 40000),
        _ => panic!("expected not pageable"),
    }
}

#[test]
fn first_page_of_an_empty_stream_is_an_error() {
    assert_eq!(first_page::<u32>(None).unwrap_err().code, 40000);
    assert_eq!(first_page(Some(Ok(7u32))).unwrap(), 7);
}

#[derive(Clone)]
struct Double;

impl PaginatedItemHandler<u32> for Double {
    fn handled(&self, before: u32, after: u32) -> bool {
        after == before.wrapping_mul(2)
    }

    fn handle(&self, item: &mut u32) {
        *item = item.wrapping_mul(2);
    }
}

#[test]
fn handler_runs_over_each_item_in_order() {
    let out = handle_items(vec![1u32, 2, 3], &Some(Double));
    assert_eq!(out, vec![2, 4, 6]);
    assert!(out.iter().zip([1u32, 2, 3]).all(|(a, b)| Double.handled(b, *a)));
    assert_eq!(handle_items(vec![1u32, 2, 3], &None::<Double>), vec![1, 2, 3]);
    assert_eq!(handle_items(vec![1u32], &Some(())), vec![1]);
}
