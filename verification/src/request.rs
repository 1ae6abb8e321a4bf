//! The HTTP call that the home screen asks for: what "send" captures, the
//! request that is built from it, and the message that reports how the call
//! ended.
//!
//! The call itself is made by the runtime. The request editor's text is not
//! part of it: a request carries a method, a URL and one fixed header, and no
//! body.

use crate::screens::home_screen::HttpMethod;
use crate::screens::home_screen::Message;
use vstd::prelude::*;

verus! {

/// The name of the one header that every request carries.
pub const CONTENT_TYPE: &'static str = "Content-Type";

/// The value of the one header that every request carries, whatever the
/// method.
pub const APPLICATION_JSON: &'static str = "application/json";

/// What "send" captures: the method and the URL that were selected at that
/// moment. Later changes to the screen do not reach a call already
/// captured.
#[derive(Debug, PartialEq)]
pub struct HttpCall {
    pub method: HttpMethod,
    pub url: String,
}

/// One header line of a request.
#[derive(Debug, PartialEq)]
pub struct Header {
    pub name: String,
    pub value: String,
}

/// A request that is ready to be sent.
#[derive(Debug, PartialEq)]
pub struct OutgoingRequest {
    pub method: HttpMethod,
    pub url: String,
    pub headers: Vec<Header>,
}

/// How a call ended, with the text that the transport reported.
#[derive(Debug, PartialEq)]
pub enum CallOutcome {
    /// The response arrived and its body was read.
    Body(String),
    /// The response arrived, but reading its body failed.
    ReadFailed(String),
    /// The request could not be carried out.
    RequestFailed(String),
}

/// Whether `reqwest::Url::parse` accepts `text` as an absolute URL.
pub uninterp spec fn url_parses(text: Seq<char>) -> bool;

/// `reqwest::Url::parse`, reduced to whether it succeeded. The parser works
/// on the text alone, without a base URL.
#[verifier::external_body]
fn parses_as_url(text: &str) -> (accepted: bool)
    ensures
        accepted == url_parses(text@),
{
    reqwest::Url::parse(text).is_ok()
}

impl OutgoingRequest {
    /// The request for `call`: its method, its URL letter for letter, and the
    /// JSON content type as the only header.
    pub open spec fn carries(self, call: HttpCall) -> bool {
        &&& self.method == call.method
        &&& self.url@ == call.url@
        &&& self.headers@.len() == 1
        &&& self.headers@[0].name@ == CONTENT_TYPE@
        &&& self.headers@[0].value@ == APPLICATION_JSON@
    }

    /// A request can be sent only to a URL that parses.
    pub open spec fn well_formed(self) -> bool {
        url_parses(self.url@)
    }
}

/// Builds the request for a call whose URL parses. A call with any other
/// URL has no request; [`try_prepare`] tells the two apart.
pub fn prepare(call: HttpCall) -> (request: OutgoingRequest)
    requires
        url_parses(call.url@),
    ensures
        request.carries(call),
        request.well_formed(),
{
    let content_type = Header {
        name: CONTENT_TYPE.to_owned(),
        value: APPLICATION_JSON.to_owned(),
    };
    let mut headers: Vec<Header> = Vec::new();
    headers.push(content_type);
    OutgoingRequest { method: call.method, url: call.url, headers }
}

/// Builds the request for a call, or refuses the call when its URL does not
/// parse.
pub fn try_prepare(call: HttpCall) -> (request: Option<OutgoingRequest>)
    ensures
        url_parses(call.url@) <==> request is Some,
        request matches Some(r) ==> r.carries(call) && r.well_formed(),
{
    if parses_as_url(call.url.as_str()) {
        Some(prepare(call))
    } else {
        None
    }
}

/// What the response pane is to show for `outcome`: a body as it came, a
/// failure as its report behind a prefix that tells the two kinds of failure
/// apart.
pub open spec fn shown_text(outcome: CallOutcome) -> Seq<char> {
    match outcome {
        CallOutcome::Body(text) => text@,
        CallOutcome::ReadFailed(report) => "Failed to read response: "@ + report@,
        CallOutcome::RequestFailed(report) => "Request failed: "@ + report@,
    }
}

/// Whether `message` is the one that reports `outcome` to the home screen:
/// `Done`, with `Ok` exactly for a body that was read, and with the text
/// that is to be shown.
pub open spec fn reports(message: Message, outcome: CallOutcome) -> bool {
    message matches Message::Done(result) && match result {
        Ok(text) => outcome is Body && text@ == shown_text(outcome),
        Err(text) => !(outcome is Body) && text@ == shown_text(outcome),
    }
}

/// The message that feeds the end of a call back into the home screen.
pub fn completion(outcome: CallOutcome) -> (message: Message)
    ensures
        reports(message, outcome),
{
    match outcome {
        CallOutcome::Body(text) => Message::Done(Ok(text)),
        CallOutcome::ReadFailed(report) => {
            let text = String::from_str("Failed to read response: ").concat(report.as_str());
            Message::Done(Err(text))
        },
        CallOutcome::RequestFailed(report) => {
            let text = String::from_str("Request failed: ").concat(report.as_str());
            Message::Done(Err(text))
        },
    }
}

} // verus!
