use apikit::request::{
    completion, prepare, try_prepare, CallOutcome, Header, HttpCall, OutgoingRequest,
    APPLICATION_JSON, CONTENT_TYPE,
};
use apikit::screens::contracts::Screen;
use apikit::screens::home_screen::{HomeScreen, HttpMethod, Message};

fn json_header() -> Header {
    Header { name: "Content-Type".to_string(), value: "application/json".to_string() }
}

#[test]
fn the_fixed_header_is_the_json_content_type() {
    assert_eq!(CONTENT_TYPE, "Content-Type");
    assert_eq!(APPLICATION_JSON, "application/json");
}

#[test]
fn a_request_carries_the_call_and_the_fixed_header() {
    let call = HttpCall { method: HttpMethod::Post, url: "http://localhost:3000/users?id=7".to_string() };
    let request = prepare(call);
    assert_eq!(
        request,
        OutgoingRequest {
            method: HttpMethod::Post,
            url: "http://localhost:3000/users?id=7".to_string(),
            headers: vec![json_header()],
        }
    );
}

#[test]
fn the_header_does_not_depend_on_the_method() {
    for method in [HttpMethod::Get, HttpMethod::Post, HttpMethod::Put, HttpMethod::Delete] {
        let request = try_prepare(HttpCall { method, url: "https://example.com/".to_string() });
        let request = request.expect("the URL parses");
        assert_eq!(request.method, method);
        assert_eq!(request.url, "https://example.com/");
        assert_eq!(request.headers, vec![json_header()]);
    }
}

#[test]
fn the_url_is_kept_letter_for_letter() {
    let request = try_prepare(HttpCall { method: HttpMethod::Get, url: "HTTP://Example.COM".to_string() });
    assert_eq!(request.map(|request| request.url), Some("HTTP://Example.COM".to_string()));
}

#[test]
fn a_text_that_is_not_a_url_is_refused() {
    let request = try_prepare(HttpCall { method: HttpMethod::Get, url: "not a url".to_string() });
    assert_eq!(request, None);
}

#[test]
fn an_empty_url_is_refused() {
    let request = try_prepare(HttpCall { method: HttpMethod::Delete, url: String::new() });
    assert_eq!(request, None);
}

#[test]
fn a_url_without_a_scheme_is_refused() {
    let request = try_prepare(HttpCall { method: HttpMethod::Get, url: "example.com/path".to_string() });
    assert_eq!(request, None);
}

#[test]
fn sending_a_text_that_is_not_a_url_is_refused_when_the_request_is_built() {
    let mut screen = HomeScreen::default();
    screen.update(Message::UpdateUrl("not a url".to_string()));
    let mut effects = screen.update(Message::Request);
    assert!(screen.is_loading());
    assert_eq!(effects.len(), 1);
    match effects.remove(0) {
        apikit::screens::contracts::Effect::Send(call) => {
            assert_eq!(call.url, "not a url");
            assert_eq!(try_prepare(call), None);
        }
    }
}

#[test]
fn a_body_is_reported_as_it_came() {
    let message = completion(CallOutcome::Body("{\"ok\": true}".to_string()));
    assert_eq!(message, Message::Done(Ok("{\"ok\": true}".to_string())));
    let message = completion(CallOutcome::Body(String::new()));
    assert_eq!(message, Message::Done(Ok(String::new())));
}

#[test]
fn a_failed_request_is_reported_with_its_prefix() {
    let message = completion(CallOutcome::RequestFailed("connection refused".to_string()));
    assert_eq!(message, Message::Done(Err("Request failed: connection refused".to_string())));
}

#[test]
fn an_unreadable_response_is_reported_with_its_prefix() {
    let message = completion(CallOutcome::ReadFailed("unexpected end of file".to_string()));
    assert_eq!(
        message,
        Message::Done(Err("Failed to read response: unexpected end of file".to_string()))
    );
}

#[test]
fn the_report_of_a_call_reaches_the_response_editor() {
    let mut screen = HomeScreen::default();
    screen.update(Message::Request);
    screen.update(completion(CallOutcome::RequestFailed("timed out".to_string())));
    assert!(!screen.is_loading());
    assert_eq!(screen.response_text(), "Request failed: timed out\n");
    screen.update(Message::Request);
    screen.update(completion(CallOutcome::Body("[1, 2]".to_string())));
    assert!(!screen.is_loading());
    assert_eq!(screen.response_text(), "[1, 2]\n");
}
