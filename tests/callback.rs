use oneshot_oauth2_callback::capture::{handle_request, CaptureState, Content, Phase};
use oneshot_oauth2_callback::response::{BasicErrorResponse, CodeGrantResponse};
use oneshot_oauth2_callback::server::{
    classify_pairs, handle_oauth2_response, parse_oauth2_response_query, Error,
};
use oneshot_oauth2_callback::ui::Headings;

const CALLBACK: &str = "/oauth2/callback";

fn pairs(items: &[(&str, &str)]) -> Vec<(String, String)> {
    items.iter().map(|(k, v)| (k.to_string(), v.to_string())).collect()
}

fn expect_success(r: Result<CodeGrantResponse, Error>, code: &str, state: &str) {
    match r {
        Ok(g) => {
            assert_eq!(g.code, code);
            assert_eq!(g.state, state);
        }
        _ => panic!("expected a code grant"),
    }
}

fn expect_oauth(
    r: Result<CodeGrantResponse, Error>,
    error: &str,
    description: Option<&str>,
    uri: Option<&str>,
) {
    match r {
        Err(Error::Oauth { response }) => {
            assert_eq!(response.error, error);
            assert_eq!(response.error_description.as_deref(), description);
            assert_eq!(response.error_uri.as_deref(), uri);
        }
        _ => panic!("expected an OAuth2 error"),
    }
}

fn expect_invalid(r: Result<CodeGrantResponse, Error>) {
    assert!(matches!(r, Err(Error::Invalid)));
}

fn subheader_of(error: &str, description: Option<&str>, uri: Option<&str>) -> String {
    let response = BasicErrorResponse {
        error: error.to_string(),
        error_description: description.map(|s| s.to_string()),
        error_uri: uri.map(|s| s.to_string()),
    };
    response.to_headings().subheader
}

#[test]
fn scenario_success_callback() {
    let mut state = CaptureState::new();
    let reply = handle_request(&mut state, CALLBACK, CALLBACK, "code=abc123&state=xyz789");
    assert_eq!(reply.status, 200);
    assert!(reply.content == Content::Html);
    assert!(reply.shutdown);
    assert!(reply.body.contains("<h1>You are now logged in.</h1>"));
    assert!(reply.body.contains("<h2>Please close the window.</h2>"));
    expect_success(state.conclude(), "abc123", "xyz789");
}

#[test]
fn scenario_error_with_description() {
    let mut state = CaptureState::new();
    let reply = handle_request(
        &mut state,
        CALLBACK,
        CALLBACK,
        "error=access_denied&error_description=User%20cancelled",
    );
    assert!(reply.body.contains("<h1>Login failed.</h1>"));
    assert!(reply.body.contains("<h2>access_denied: User cancelled</h2>"));
    expect_oauth(state.conclude(), "access_denied", Some("User cancelled"), None);
}

#[test]
fn scenario_no_query_is_malformed() {
    let mut state = CaptureState::new();
    let reply = handle_request(&mut state, CALLBACK, CALLBACK, "");
    assert_eq!(reply.status, 200);
    assert!(reply.body.contains("<h2>Received invalid OAuth2 response.</h2>"));
    expect_invalid(state.conclude());
}

#[test]
fn scenario_first_success_wins() {
    let mut state = CaptureState::new();
    let first = handle_request(&mut state, CALLBACK, CALLBACK, "code=A&state=B");
    let second = handle_request(&mut state, CALLBACK, CALLBACK, "error=server_error");
    assert!(first.shutdown);
    assert!(!second.shutdown);
    assert!(second.body.contains("<h2>server_error</h2>"));
    expect_success(state.conclude(), "A", "B");
}

#[test]
fn root_and_health_leave_state_alone() {
    let mut state = CaptureState::new();
    let root = handle_request(&mut state, "/", CALLBACK, "code=A&state=B");
    assert_eq!(root.body, "waiting for callback");
    assert!(root.content == Content::Text);
    let health = handle_request(&mut state, "/health", CALLBACK, "");
    assert_eq!(health.body, "ok");
    assert!(!state.is_filled());
    assert!(state.phase() == Phase::Idle);

    handle_request(&mut state, CALLBACK, CALLBACK, "code=A&state=B");
    assert!(state.phase() == Phase::Draining);
    handle_request(&mut state, "/", CALLBACK, "code=X&state=Y");
    handle_request(&mut state, "/health", CALLBACK, "");
    assert!(state.phase() == Phase::Draining);
    expect_success(state.conclude(), "A", "B");
}

#[test]
fn unknown_path_is_not_found() {
    let mut state = CaptureState::new();
    let reply = handle_request(&mut state, "/elsewhere", CALLBACK, "code=A&state=B");
    assert_eq!(reply.status, 404);
    assert!(reply.content == Content::Empty);
    assert!(reply.body.is_empty());
    assert!(!state.is_filled());
}

#[test]
fn conclude_without_capture_is_timeout() {
    let mut state = CaptureState::new();
    assert!(matches!(state.conclude(), Err(Error::Timeout)));
    assert!(state.phase() == Phase::Stopped);
}

#[test]
fn callback_after_stop_is_ignored() {
    let mut state = CaptureState::new();
    let _ = state.conclude();
    let reply = handle_request(&mut state, CALLBACK, CALLBACK, "code=A&state=B");
    assert!(!reply.shutdown);
    assert!(!state.is_filled());
}

#[test]
fn try_fill_only_once() {
    let mut state = CaptureState::new();
    assert!(state.try_fill(Err(Error::Invalid)));
    assert!(!state.try_fill(Ok(CodeGrantResponse { code: "c".to_string(), state: "s".to_string() })));
    expect_invalid(state.conclude());
}

#[test]
fn classify_success_pairs() {
    expect_success(classify_pairs(&pairs(&[("code", "abc"), ("state", "xyz")])), "abc", "xyz");
    expect_success(
        classify_pairs(&pairs(&[("state", "s"), ("scope", "x"), ("code", "c")])),
        "c",
        "s",
    );
}

#[test]
fn classify_error_pairs() {
    expect_oauth(classify_pairs(&pairs(&[("error", "e")])), "e", None, None);
    expect_oauth(
        classify_pairs(&pairs(&[("error_uri", "u"), ("error", "e"), ("error_description", "d")])),
        "e",
        Some("d"),
        Some("u"),
    );
    expect_oauth(classify_pairs(&pairs(&[("error", "e"), ("code", "c")])), "e", None, None);
}

#[test]
fn classify_rejects_other_shapes() {
    expect_invalid(classify_pairs(&pairs(&[])));
    expect_invalid(classify_pairs(&pairs(&[("code", "c")])));
    expect_invalid(classify_pairs(&pairs(&[("code", "c"), ("code", "d"), ("state", "s")])));
    expect_invalid(classify_pairs(&pairs(&[("code", "c"), ("state", "s"), ("error", "e")])));
    expect_invalid(classify_pairs(&pairs(&[("error", "e"), ("error", "f")])));
    expect_invalid(classify_pairs(&pairs(&[
        ("error", "e"),
        ("error_uri", "u"),
        ("error_uri", "v"),
    ])));
}

#[test]
fn parse_decodes_percent_and_plus() {
    expect_success(parse_oauth2_response_query("code=a%2Fb&state=x+y"), "a/b", "x y");
    expect_oauth(
        parse_oauth2_response_query("error=invalid_request&error_uri=https%3A%2F%2Fexample.com"),
        "invalid_request",
        None,
        Some("https://example.com"),
    );
}

#[test]
fn parse_empty_or_unrelated_is_invalid() {
    expect_invalid(parse_oauth2_response_query(""));
    expect_invalid(parse_oauth2_response_query("foo=bar"));
    expect_invalid(parse_oauth2_response_query("&&&"));
    expect_invalid(parse_oauth2_response_query("code=only"));
}

#[test]
fn error_subheader_combinations() {
    assert_eq!(subheader_of("e", None, None), "e");
    assert_eq!(subheader_of("e", Some("d"), None), "e: d");
    assert_eq!(subheader_of("e", None, Some("u")), "e (u)");
    assert_eq!(subheader_of("e", Some("d"), Some("u")), "e: d (u)");
}

#[test]
fn error_headings_title() {
    let response = BasicErrorResponse {
        error: "access_denied".to_string(),
        error_description: None,
        error_uri: None,
    };
    assert_eq!(response.to_headings().title, "Login failed.");
}

#[test]
fn success_headings() {
    let grant = CodeGrantResponse { code: "c".to_string(), state: "s".to_string() };
    let h = grant.to_headings();
    assert_eq!(h.title, "You are now logged in.");
    assert_eq!(h.subheader, "Please close the window.");
}

#[test]
fn headings_html_holds_both_texts() {
    let h = Headings::new("Title", "Sub");
    assert_eq!(h.title, "Title");
    assert_eq!(h.subheader, "Sub");
    let page = h.html();
    assert!(page.starts_with("<html>"));
    assert!(page.trim_end().ends_with("</html>"));
    let h1 = page.find("<h1>Title</h1>").unwrap();
    let h2 = page.find("<h2>Sub</h2>").unwrap();
    assert!(h1 < h2);
}

#[test]
fn handle_response_renders_page() {
    let (result, html) = handle_oauth2_response("error=server_error&error_uri=u");
    expect_oauth(result, "server_error", None, Some("u"));
    assert!(html.contains("<h2>server_error (u)</h2>"));
}

#[test]
fn poll_waits_then_concludes() {
    let mut state = CaptureState::new();
    assert!(state.poll().is_none());
    assert!(state.phase() == Phase::Idle);
    handle_request(&mut state, CALLBACK, CALLBACK, "state=xyz&code=a%26b+c");
    match state.poll() {
        Some(r) => expect_success(r, "a&b c", "xyz"),
        None => panic!("expected the captured result"),
    }
    assert!(state.phase() == Phase::Stopped);
    assert!(state.poll().is_none());
}

#[test]
fn handle_response_matches_parser() {
    for query in ["code=abc123&state=xyz789", "error=access_denied", "", "x=y"] {
        let (result, _) = handle_oauth2_response(query);
        let parsed = parse_oauth2_response_query(query);
        match (result, parsed) {
            (Ok(a), Ok(b)) => {
                assert_eq!(a.code, b.code);
                assert_eq!(a.state, b.state);
            }
            (Err(Error::Oauth { response: a }), Err(Error::Oauth { response: b })) => {
                assert_eq!(a.error, b.error);
            }
            (Err(Error::Invalid), Err(Error::Invalid)) => {}
            _ => panic!("handler and parser disagree"),
        }
    }
}
