use oxid_roblox::util::api_helper::delete;
use oxid_roblox::util::api_helper::get;
use oxid_roblox::util::api_helper::patch;
use oxid_roblox::util::api_helper::post;
use oxid_roblox::util::api_helper::start;
use oxid_roblox::util::api_helper::Outbound;
use oxid_roblox::util::api_helper::Rejected;
use oxid_roblox::util::api_helper::Resolution;
use oxid_roblox::util::api_helper::Verdict;
use oxid_roblox::util::credentials::CredentialState;
use oxid_roblox::util::request::Body;
use oxid_roblox::util::request::FieldValue;
use oxid_roblox::util::request::RawResponse;
use oxid_roblox::util::request::Request;
use oxid_roblox::util::request::Verb;
use oxid_roblox::util::ApiError;
use oxid_roblox::util::OxidError;
use reqwest::header::HeaderMap;

fn header(headers: &HeaderMap, name: &str) -> Option<String> {
    headers.get(name).map(|value| value.to_str().unwrap().to_string())
}

fn reply(status: u16, token: Option<&str>, body: &str) -> Result<RawResponse, String> {
    Ok(RawResponse {
        status,
        csrf_token: token.map(|text| text.to_string()),
        body: body.to_string(),
    })
}

fn error(code: i32, message: &str) -> ApiError {
    ApiError { code, message: message.to_string(), user_facing_message: None }
}

fn some_request() -> Request {
    post(
        "https://users.roblox.com/v1/users".to_string(),
        Body::new().with("userIds", FieldValue::Ints(vec![1, 2])),
        None,
    )
}

fn refusal<'a>(verdict: Verdict<'a>) -> Rejected<'a> {
    match verdict {
        Verdict::Undecided(rejected) => rejected,
        Verdict::Done(_) => panic!("the reply should have been a refusal"),
    }
}

fn failure(resolution: Resolution<'_>) -> OxidError {
    match resolution {
        Resolution::Failed(failure) => failure,
        Resolution::Resend(_, _) => panic!("the call should have ended"),
    }
}

fn listed(failure: OxidError) -> Vec<ApiError> {
    match failure {
        OxidError::Api(errors) => errors,
        other => panic!("expected the service's errors, got {:?}", other),
    }
}

fn same_errors(left: &Vec<ApiError>, right: &Vec<ApiError>) -> bool {
    format!("{:?}", left) == format!("{:?}", right)
}

fn classification(status: u16, token: Option<&str>, errors: Vec<ApiError>) -> String {
    let request = some_request();
    let mut state = CredentialState::new();
    let (exchange, _) = start(&state, &request);
    match exchange.on_reply(reply(status, token, "body")) {
        Verdict::Done(result) => format!("{:?}", result),
        Verdict::Undecided(rejected) => match rejected.on_errors(&mut state, Ok(errors)) {
            Resolution::Failed(failure) => format!("{:?}", failure),
            Resolution::Resend(_, _) => "resend".to_string(),
        },
    }
}

#[test]
fn the_four_entry_points_differ_in_verb_and_body() {
    let fetched = get("https://a".to_string(), None);
    assert_eq!(fetched.verb, Verb::Get);
    assert!(fetched.body.is_none());
    let removed = delete("https://a".to_string(), None);
    assert_eq!(removed.verb, Verb::Delete);
    assert!(removed.body.is_none());
    let created = post("https://a".to_string(), Body::new(), None);
    assert_eq!(created.verb, Verb::Post);
    assert!(created.body.is_some());
    let updated = patch("https://a".to_string(), Body::new(), None);
    assert_eq!(updated.verb, Verb::Patch);
    assert!(updated.body.is_some());
}

#[test]
fn an_entry_point_keeps_url_and_credential() {
    let request = get("https://users.roblox.com/v1/users/1".to_string(), Some("mine"));
    assert_eq!(request.url, "https://users.roblox.com/v1/users/1");
    assert_eq!(request.roblosecurity, Some("mine".to_string()));
    let request = delete("https://x/y".to_string(), None);
    assert_eq!(request.url, "https://x/y");
    assert_eq!(request.roblosecurity, None);
}

#[test]
fn a_call_starts_with_a_snapshot_of_the_shared_headers() {
    let mut state = CredentialState::new();
    state.set_roblosecurity("shared");
    let request = some_request();
    let _ = refreshed(&mut state, &request, "known");
    let (_, outbound) = start(&state, &request);
    assert!(std::ptr::eq(outbound.request, &request));
    assert_eq!(header(&outbound.headers, "cookie"), Some(".ROBLOSECURITY=shared;".to_string()));
    assert_eq!(header(&outbound.headers, "x-csrf-token"), Some("known".to_string()));
    assert_eq!(header(&outbound.headers, "user-agent"), Some("Roblox/WinInet".to_string()));
    assert_eq!(header(&outbound.headers, "referer"), Some("www.roblox.com".to_string()));
}

#[test]
fn a_call_with_its_own_credential_does_not_touch_the_shared_state() {
    let mut state = CredentialState::new();
    state.set_roblosecurity("shared");
    let request = get("https://a".to_string(), Some("override"));
    let (_, outbound) = start(&state, &request);
    assert_eq!(header(&outbound.headers, "cookie"), Some(".ROBLOSECURITY=override;".to_string()));
    assert_eq!(header(&state.snapshot(), "cookie"), Some(".ROBLOSECURITY=shared;".to_string()));
}

#[test]
fn success_returns_the_raw_response() {
    let request = some_request();
    let state = CredentialState::new();
    let (exchange, _) = start(&state, &request);
    match exchange.on_reply(reply(200, Some("ignored"), "{\"id\":1}")) {
        Verdict::Done(Ok(response)) => {
            assert_eq!(response.status, 200);
            assert_eq!(response.body, "{\"id\":1}");
            assert_eq!(response.csrf_token, Some("ignored".to_string()));
        },
        _ => panic!("a 200 ends the call with the response"),
    }
}

#[test]
fn every_success_status_returns_the_raw_response() {
    for status in [200u16, 201, 202, 204, 206, 250, 299] {
        let request = some_request();
        let state = CredentialState::new();
        let (exchange, _) = start(&state, &request);
        match exchange.on_reply(reply(status, None, "kept as it came")) {
            Verdict::Done(Ok(response)) => {
                assert_eq!(response.status, status);
                assert_eq!(response.body, "kept as it came");
            },
            _ => panic!("a success status ends the call with the response"),
        }
        assert_eq!(state.snapshot().len(), 2);
    }
}

#[test]
fn a_reply_without_content_is_a_success() {
    let request = some_request();
    let state = CredentialState::new();
    let (exchange, _) = start(&state, &request);
    match exchange.on_reply(reply(204, Some("offered"), "")) {
        Verdict::Done(Ok(response)) => {
            assert_eq!(response.status, 204);
            assert_eq!(response.body, "");
            assert_eq!(response.csrf_token, Some("offered".to_string()));
        },
        _ => panic!("a 204 ends the call with the response"),
    }
    assert_eq!(header(&state.snapshot(), "x-csrf-token"), None);
}

#[test]
fn the_statuses_next_to_the_success_range_are_refusals() {
    assert!(oxid_roblox::util::api_helper::succeeded(200));
    assert!(oxid_roblox::util::api_helper::succeeded(299));
    assert!(!oxid_roblox::util::api_helper::succeeded(199));
    assert!(!oxid_roblox::util::api_helper::succeeded(300));
    for status in [199u16, 300] {
        let request = some_request();
        let mut state = CredentialState::new();
        let (exchange, _) = start(&state, &request);
        let rejected = refusal(exchange.on_reply(reply(status, None, "")));
        let errors = listed(failure(rejected.on_errors(&mut state, Ok(vec![error(1, "No")]))));
        assert!(same_errors(&errors, &vec![error(1, "No")]));
    }
}

#[test]
fn unauthorized_ends_the_call_without_a_resend() {
    let request = some_request();
    let state = CredentialState::new();
    let (exchange, _) = start(&state, &request);
    match exchange.on_reply(reply(401, Some("offered"), "{\"errors\":[{\"code\":0}]}")) {
        Verdict::Done(Err(OxidError::Unauthorized)) => {},
        _ => panic!("a 401 ends the call as unauthorized"),
    }
    assert_eq!(header(&state.snapshot(), "x-csrf-token"), None);
}

#[test]
fn a_transport_failure_ends_the_call_as_http() {
    let request = some_request();
    let state = CredentialState::new();
    let (exchange, _) = start(&state, &request);
    match exchange.on_reply(Err("connection refused".to_string())) {
        Verdict::Done(Err(OxidError::Http(message))) => assert_eq!(message, "connection refused"),
        _ => panic!("a transport failure ends the call as an http error"),
    }
}

#[test]
fn other_failures_report_the_decoded_errors() {
    for status in [400u16, 404, 409, 429, 500, 503, 199, 300, 302, 100, 0, u16::MAX] {
        let request = some_request();
        let mut state = CredentialState::new();
        let (exchange, _) = start(&state, &request);
        let rejected = refusal(exchange.on_reply(reply(status, None, "the body")));
        assert_eq!(rejected.status(), status);
        assert_eq!(rejected.body(), "the body");
        let decoded = vec![error(3, "Bad"), error(0, "Zero too")];
        let expected = vec![error(3, "Bad"), error(0, "Zero too")];
        let errors = listed(failure(rejected.on_errors(&mut state, Ok(decoded))));
        assert!(same_errors(&errors, &expected));
        assert_eq!(state.snapshot().len(), 2);
    }
}

#[test]
fn a_failure_with_a_token_header_but_another_status_is_not_a_refresh() {
    let request = some_request();
    let mut state = CredentialState::new();
    let (exchange, _) = start(&state, &request);
    let rejected = refusal(exchange.on_reply(reply(400, Some("offered"), "")));
    let errors = listed(failure(rejected.on_errors(&mut state, Ok(vec![error(0, "zero")]))));
    assert_eq!(errors.len(), 1);
    assert_eq!(header(&state.snapshot(), "x-csrf-token"), None);
}

#[test]
fn an_undecodable_error_list_is_a_failure_of_its_own() {
    let request = some_request();
    let mut state = CredentialState::new();
    let (exchange, _) = start(&state, &request);
    let rejected = refusal(exchange.on_reply(reply(403, Some("offered"), "<html>")));
    match failure(rejected.on_errors(&mut state, Err("expected value at line 1".to_string()))) {
        OxidError::Http(message) => assert_eq!(message, "expected value at line 1"),
        other => panic!("expected the decoding failure, got {:?}", other),
    }
    assert_eq!(header(&state.snapshot(), "x-csrf-token"), None);
}

#[test]
fn forbidden_without_the_header_is_a_domain_error() {
    let request = some_request();
    let mut state = CredentialState::new();
    state.set_roblosecurity("shared");
    let (exchange, _) = start(&state, &request);
    let rejected = refusal(exchange.on_reply(reply(403, None, "")));
    let errors =
        listed(failure(rejected.on_errors(&mut state, Ok(vec![error(0, "Token Validation Failed")]))));
    assert!(same_errors(&errors, &vec![error(0, "Token Validation Failed")]));
    let after = state.snapshot();
    assert_eq!(after.len(), 3);
    assert_eq!(header(&after, "x-csrf-token"), None);
    assert_eq!(header(&after, "cookie"), Some(".ROBLOSECURITY=shared;".to_string()));
}

#[test]
fn forbidden_without_code_zero_is_a_domain_error() {
    let request = some_request();
    let mut state = CredentialState::new();
    let (exchange, _) = start(&state, &request);
    let rejected = refusal(exchange.on_reply(reply(403, Some("offered"), "")));
    let errors = listed(
        failure(rejected.on_errors(&mut state, Ok(vec![error(9, "You lack permission")]))),
    );
    assert!(same_errors(&errors, &vec![error(9, "You lack permission")]));
    assert_eq!(state.snapshot().len(), 2);
    assert_eq!(header(&state.snapshot(), "x-csrf-token"), None);
}

#[test]
fn forbidden_with_an_empty_error_list_is_a_domain_error() {
    let request = some_request();
    let mut state = CredentialState::new();
    let (exchange, _) = start(&state, &request);
    let rejected = refusal(exchange.on_reply(reply(403, Some("offered"), "")));
    let errors = listed(failure(rejected.on_errors(&mut state, Ok(vec![]))));
    assert!(errors.is_empty());
    assert_eq!(header(&state.snapshot(), "x-csrf-token"), None);
}

fn refreshed<'a>(
    state: &mut CredentialState,
    request: &'a Request,
    token: &str,
) -> (oxid_roblox::util::api_helper::Exchange<'a>, Outbound<'a>) {
    let (exchange, _) = start(state, request);
    let rejected = refusal(exchange.on_reply(reply(403, Some(token), "")));
    match rejected.on_errors(state, Ok(vec![error(0, "Token Validation Failed")])) {
        Resolution::Resend(exchange, outbound) => (exchange, outbound),
        Resolution::Failed(_) => panic!("the refresh signal asks for a resend"),
    }
}

#[test]
fn a_refresh_leaves_the_other_shared_headers_alone() {
    let mut state = CredentialState::new();
    state.set_roblosecurity("secret");
    let request = some_request();
    let _ = refreshed(&mut state, &request, "tok-1");
    let headers = state.snapshot();
    assert_eq!(header(&headers, "x-csrf-token"), Some("tok-1".to_string()));
    assert_eq!(header(&headers, "cookie"), Some(".ROBLOSECURITY=secret;".to_string()));
    assert_eq!(header(&headers, "user-agent"), Some("Roblox/WinInet".to_string()));
    assert_eq!(header(&headers, "referer"), Some("www.roblox.com".to_string()));
    assert_eq!(headers.len(), 4);
}

#[test]
fn the_refresh_signal_resends_the_same_request_with_the_token() {
    let mut state = CredentialState::new();
    state.set_roblosecurity("shared");
    let request = some_request();
    let (_, outbound) = refreshed(&mut state, &request, "fresh-token");
    assert!(std::ptr::eq(outbound.request, &request));
    assert_eq!(header(&outbound.headers, "x-csrf-token"), Some("fresh-token".to_string()));
    assert_eq!(header(&outbound.headers, "cookie"), Some(".ROBLOSECURITY=shared;".to_string()));
    assert_eq!(header(&outbound.headers, "user-agent"), Some("Roblox/WinInet".to_string()));
}

#[test]
fn the_refresh_signal_is_found_when_code_zero_is_not_the_first_error() {
    let mut state = CredentialState::new();
    let request = some_request();
    let (exchange, _) = start(&state, &request);
    let rejected = refusal(exchange.on_reply(reply(403, Some("t"), "")));
    match rejected.on_errors(&mut state, Ok(vec![error(4, "x"), error(0, "y")])) {
        Resolution::Resend(_, outbound) => {
            assert_eq!(header(&outbound.headers, "x-csrf-token"), Some("t".to_string()))
        },
        Resolution::Failed(_) => panic!("the refresh signal asks for a resend"),
    }
}

#[test]
fn the_resend_keeps_the_credential_of_the_call() {
    let mut state = CredentialState::new();
    state.set_roblosecurity("shared");
    let request = get("https://a".to_string(), Some("override"));
    let (_, outbound) = refreshed(&mut state, &request, "tok");
    assert_eq!(header(&outbound.headers, "cookie"), Some(".ROBLOSECURITY=override;".to_string()));
    assert_eq!(header(&outbound.headers, "x-csrf-token"), Some("tok".to_string()));
    assert_eq!(header(&state.snapshot(), "cookie"), Some(".ROBLOSECURITY=shared;".to_string()));
}

#[test]
fn the_shared_state_keeps_the_token_for_later_calls() {
    let mut state = CredentialState::new();
    let request = some_request();
    let (exchange, _) = refreshed(&mut state, &request, "kept");
    match exchange.on_reply(reply(200, None, "done")) {
        Verdict::Done(Ok(response)) => assert_eq!(response.body, "done"),
        _ => panic!("the resend succeeded"),
    }
    assert_eq!(header(&state.snapshot(), "x-csrf-token"), Some("kept".to_string()));
    let later = get("https://b".to_string(), None);
    let (exchange, outbound) = start(&state, &later);
    assert_eq!(header(&outbound.headers, "x-csrf-token"), Some("kept".to_string()));
    match exchange.on_reply(reply(200, None, "at once")) {
        Verdict::Done(Ok(response)) => assert_eq!(response.body, "at once"),
        _ => panic!("the later call succeeds without a refresh of its own"),
    }
}

#[test]
fn a_newer_token_replaces_the_older_one() {
    let mut state = CredentialState::new();
    let request = some_request();
    let _ = refreshed(&mut state, &request, "one");
    let _ = refreshed(&mut state, &request, "two");
    let headers = state.snapshot();
    assert_eq!(header(&headers, "x-csrf-token"), Some("two".to_string()));
    assert_eq!(headers.get_all("x-csrf-token").iter().count(), 1);
}

#[test]
fn there_is_no_second_resend() {
    let mut state = CredentialState::new();
    let request = some_request();
    let (exchange, _) = refreshed(&mut state, &request, "first");
    let rejected = refusal(exchange.on_reply(reply(403, Some("second"), "")));
    let errors =
        listed(failure(rejected.on_errors(&mut state, Ok(vec![error(0, "Token Validation Failed")]))));
    assert!(same_errors(&errors, &vec![error(0, "Token Validation Failed")]));
    assert_eq!(header(&state.snapshot(), "x-csrf-token"), Some("first".to_string()));
}

#[test]
fn the_resend_is_classified_like_any_reply() {
    let request = some_request();
    let mut state = CredentialState::new();
    let (exchange, _) = refreshed(&mut state, &request, "t");
    match exchange.on_reply(reply(401, None, "")) {
        Verdict::Done(Err(OxidError::Unauthorized)) => {},
        _ => panic!("a 401 to the resend ends the call as unauthorized"),
    }
    let (exchange, _) = refreshed(&mut state, &request, "t");
    match exchange.on_reply(Err("timed out".to_string())) {
        Verdict::Done(Err(OxidError::Http(message))) => assert_eq!(message, "timed out"),
        _ => panic!("a transport failure of the resend ends the call as an http error"),
    }
    let (exchange, _) = refreshed(&mut state, &request, "t");
    let rejected = refusal(exchange.on_reply(reply(500, None, "")));
    let errors = listed(failure(rejected.on_errors(&mut state, Ok(vec![error(1, "Down")]))));
    assert!(same_errors(&errors, &vec![error(1, "Down")]));
}

#[test]
fn equal_calls_with_equal_replies_are_classified_alike() {
    let cases: Vec<(u16, Option<&str>, i32)> = vec![
        (200, None, 1),
        (401, None, 1),
        (403, None, 0),
        (403, Some("t"), 5),
        (403, Some("t"), 0),
        (404, None, 2),
        (500, Some("t"), 0),
    ];
    for (status, token, code) in cases {
        let first = classification(status, token, vec![error(code, "message")]);
        let second = classification(status, token, vec![error(code, "message")]);
        assert_eq!(first, second);
    }
    assert_eq!(classification(401, None, vec![]), "Err(Unauthorized)");
    assert_eq!(classification(403, Some("t"), vec![error(0, "m")]), "resend");
    assert_eq!(
        classification(404, None, vec![error(2, "m")]),
        "Api([ApiError { code: 2, message: \"m\", user_facing_message: None }])"
    );
}

fn turn(
    status: u16,
    token: Option<&str>,
    body: &str,
    errors: Vec<ApiError>,
) -> oxid_roblox::util::api_helper::Turn {
    oxid_roblox::util::api_helper::Turn { reply: reply(status, token, body), decoded: Ok(errors) }
}

#[test]
fn a_scripted_call_that_succeeds_at_once_sends_once() {
    let mut state = CredentialState::new();
    let request = some_request();
    let (result, sent) = oxid_roblox::util::api_helper::execute_scripted(
        &mut state,
        &request,
        turn(200, None, "first", vec![]),
        turn(200, None, "second", vec![]),
    );
    assert_eq!(result.unwrap().body, "first");
    assert_eq!(sent.len(), 1);
    assert_eq!(header(&sent[0], "x-csrf-token"), None);
    assert_eq!(state.snapshot().len(), 2);
}

#[test]
fn a_scripted_unauthorized_call_sends_once() {
    let mut state = CredentialState::new();
    let request = some_request();
    let (result, sent) = oxid_roblox::util::api_helper::execute_scripted(
        &mut state,
        &request,
        turn(401, Some("offered"), "", vec![error(0, "Token Validation Failed")]),
        turn(200, None, "never asked for", vec![]),
    );
    assert!(matches!(result, Err(OxidError::Unauthorized)));
    assert_eq!(sent.len(), 1);
    assert_eq!(header(&state.snapshot(), "x-csrf-token"), None);
}

#[test]
fn a_scripted_refresh_sends_exactly_twice_and_keeps_the_token() {
    let mut state = CredentialState::new();
    state.set_roblosecurity("shared");
    let request = some_request();
    let (result, sent) = oxid_roblox::util::api_helper::execute_scripted(
        &mut state,
        &request,
        turn(403, Some("fresh"), "", vec![error(0, "Token Validation Failed")]),
        turn(200, None, "created", vec![]),
    );
    assert_eq!(result.unwrap().body, "created");
    assert_eq!(sent.len(), 2);
    assert_eq!(header(&sent[0], "x-csrf-token"), None);
    assert_eq!(header(&sent[1], "x-csrf-token"), Some("fresh".to_string()));
    assert_eq!(header(&sent[0], "cookie"), Some(".ROBLOSECURITY=shared;".to_string()));
    assert_eq!(header(&sent[1], "cookie"), Some(".ROBLOSECURITY=shared;".to_string()));
    assert_eq!(header(&state.snapshot(), "x-csrf-token"), Some("fresh".to_string()));

    let (later, sent) = oxid_roblox::util::api_helper::execute_scripted(
        &mut state,
        &request,
        turn(200, None, "at once", vec![]),
        turn(500, None, "never asked for", vec![]),
    );
    assert_eq!(later.unwrap().body, "at once");
    assert_eq!(sent.len(), 1);
    assert_eq!(header(&sent[0], "x-csrf-token"), Some("fresh".to_string()));
}

#[test]
fn a_scripted_refresh_that_is_refused_again_ends_with_the_second_errors() {
    let mut state = CredentialState::new();
    let request = some_request();
    let (result, sent) = oxid_roblox::util::api_helper::execute_scripted(
        &mut state,
        &request,
        turn(403, Some("one"), "", vec![error(0, "first refusal")]),
        turn(403, Some("two"), "", vec![error(0, "second refusal")]),
    );
    let errors = listed(result.unwrap_err());
    assert!(same_errors(&errors, &vec![error(0, "second refusal")]));
    assert_eq!(sent.len(), 2);
    assert_eq!(header(&state.snapshot(), "x-csrf-token"), Some("one".to_string()));
}

#[test]
fn a_scripted_forbidden_call_without_the_signal_leaves_the_state_alone() {
    let mut state = CredentialState::new();
    let request = some_request();
    let _ = refreshed(&mut state, &request, "earlier");
    let (result, sent) = oxid_roblox::util::api_helper::execute_scripted(
        &mut state,
        &request,
        turn(403, Some("offered"), "", vec![error(7, "Insufficient permissions")]),
        turn(200, None, "never asked for", vec![]),
    );
    let errors = listed(result.unwrap_err());
    assert!(same_errors(&errors, &vec![error(7, "Insufficient permissions")]));
    assert_eq!(sent.len(), 1);
    assert_eq!(header(&state.snapshot(), "x-csrf-token"), Some("earlier".to_string()));
}

#[test]
fn two_scripted_calls_with_the_same_answers_end_alike() {
    let request = some_request();
    let mut outcomes = Vec::new();
    let mut state = CredentialState::new();
    for _ in 0..2 {
        let (result, sent) = oxid_roblox::util::api_helper::execute_scripted(
            &mut state,
            &request,
            turn(409, None, "", vec![error(12, "Conflict")]),
            turn(200, None, "", vec![]),
        );
        outcomes.push((format!("{:?}", result), sent.len(), state.snapshot().len()));
    }
    assert_eq!(outcomes[0], outcomes[1]);
    assert_eq!(
        outcomes[0].0,
        "Err(Api([ApiError { code: 12, message: \"Conflict\", user_facing_message: None }]))"
    );
}

#[test]
fn a_body_that_does_not_decode_ends_in_a_validation_failure() {
    let failed: Result<i32, String> = Err("missing field `id`".to_string());
    match oxid_roblox::util::api_helper::deserialized(failed) {
        Err(OxidError::Validation(message)) => assert_eq!(message, "missing field `id`"),
        other => panic!("expected a validation failure, got {:?}", other),
    }
    let fine: Result<i32, String> = Ok(5);
    assert!(matches!(oxid_roblox::util::api_helper::deserialized(fine), Ok(5)));
}

#[test]
fn a_reply_is_well_formed_when_its_token_is_header_text() {
    assert!(reply(403, Some("abc"), "").unwrap().is_well_formed());
    assert!(reply(200, None, "\n").unwrap().is_well_formed());
    assert!(!reply(403, Some("a\nb"), "").unwrap().is_well_formed());
    assert!(get("u".to_string(), Some("fine")).is_presentable());
    assert!(get("u".to_string(), None).is_presentable());
    assert!(!get("u".to_string(), Some("not\rfine")).is_presentable());
}

#[test]
fn a_scripted_call_answered_without_content_succeeds_after_one_send() {
    let mut state = CredentialState::new();
    state.set_roblosecurity("shared");
    let request = get("https://users.roblox.com/v1/users/1".to_string(), None);
    let (result, sent) = oxid_roblox::util::api_helper::execute_scripted(
        &mut state,
        &request,
        turn(204, None, "", vec![]),
        turn(500, None, "never asked for", vec![]),
    );
    let response = result.unwrap();
    assert_eq!(response.status, 204);
    assert_eq!(response.body, "");
    assert_eq!(sent.len(), 1);
    assert_eq!(header(&sent[0], "user-agent"), Some("Roblox/WinInet".to_string()));
    assert_eq!(header(&sent[0], "referer"), Some("www.roblox.com".to_string()));
    assert_eq!(header(&sent[0], "cookie"), Some(".ROBLOSECURITY=shared;".to_string()));
    assert_eq!(state.snapshot().len(), 3);
}

#[test]
fn after_a_refresh_a_later_call_answered_with_created_succeeds_at_once() {
    let mut state = CredentialState::new();
    let request = some_request();
    let (first, sent) = oxid_roblox::util::api_helper::execute_scripted(
        &mut state,
        &request,
        turn(403, Some("fresh"), "", vec![error(0, "Token Validation Failed")]),
        turn(201, None, "made", vec![]),
    );
    assert_eq!(first.unwrap().status, 201);
    assert_eq!(sent.len(), 2);
    let (later, sent) = oxid_roblox::util::api_helper::execute_scripted(
        &mut state,
        &request,
        turn(201, None, "made again", vec![]),
        turn(500, None, "never asked for", vec![]),
    );
    let response = later.unwrap();
    assert_eq!(response.status, 201);
    assert_eq!(response.body, "made again");
    assert_eq!(sent.len(), 1);
    assert_eq!(header(&sent[0], "x-csrf-token"), Some("fresh".to_string()));
    assert_eq!(header(&state.snapshot(), "x-csrf-token"), Some("fresh".to_string()));
}
