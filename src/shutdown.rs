use vstd::prelude::*;
use crate::http::HttpError;
use crate::text::{contains, contains_seq};

verus! {

/// Host and port of the management endpoint.
pub const MANAGEMENT_HOST: &'static str = "localhost:8080";

/// The port whose closing confirms that the server exited.
pub const MANAGEMENT_PORT: u16 = 8080;

/// Everything of the shutdown request before the host.
pub const REQUEST_HEAD: &'static str = "POST /actuator/shutdown HTTP/1.1\r\nHost: ";

/// Everything of the shutdown request after the host: the fixed headers and
/// the blank line that ends them.
pub const REQUEST_TAIL: &'static str = "\r\nUser-Agent: Tauri-App/1.0\r\nAccept: application/json\r\nContent-Type: application/json\r\nContent-Length: 0\r\nConnection: close\r\n\r\n";

/// The texts that the response is searched for.
pub const OK_LINE: &'static str = "200 OK";
pub const NO_CONTENT_LINE: &'static str = "204 No Content";
pub const SHUTTING_DOWN: &'static str = "Shutting down";
pub const NOT_FOUND_LINE: &'static str = "404 Not Found";
pub const NOT_ALLOWED_LINE: &'static str = "405 Method Not Allowed";
pub const UNAUTHORIZED_LINE: &'static str = "401 Unauthorized";
pub const FORBIDDEN_LINE: &'static str = "403 Forbidden";

/// Number of characters of an unexpected response kept for diagnosis.
pub const PREVIEW_CHARS: usize = 200;

/// Why the cooperative shutdown did not happen.
#[derive(Debug)]
pub enum ShutdownError {
    EndpointNotFound,
    MethodNotAllowed,
    AuthenticationRequired,
    /// The start of the response that matched no known status.
    UnexpectedResponse(String),
    TransportError(HttpError),
}

/// The decision taken on a shutdown exchange.
#[derive(Clone, Copy, Debug, PartialEq, Eq, Structural)]
pub enum Verdict {
    Accepted,
    EndpointNotFound,
    MethodNotAllowed,
    AuthenticationRequired,
    UnexpectedResponse,
    TransportError,
}

/// The full request text for the management endpoint at `host`.
pub open spec fn request_text(host: Seq<char>) -> Seq<char> {
    REQUEST_HEAD@ + host + REQUEST_TAIL@
}

/// Classification of a raw response text; the first rule that matches wins.
pub open spec fn verdict_of(s: Seq<char>) -> Verdict {
    if contains_seq(s, OK_LINE@) || contains_seq(s, NO_CONTENT_LINE@) || contains_seq(s, SHUTTING_DOWN@) {
        Verdict::Accepted
    } else if contains_seq(s, NOT_FOUND_LINE@) {
        Verdict::EndpointNotFound
    } else if contains_seq(s, NOT_ALLOWED_LINE@) {
        Verdict::MethodNotAllowed
    } else if contains_seq(s, UNAUTHORIZED_LINE@) || contains_seq(s, FORBIDDEN_LINE@) {
        Verdict::AuthenticationRequired
    } else {
        Verdict::UnexpectedResponse
    }
}

/// The first characters of `s` kept for an unexpected response.
pub open spec fn preview(s: Seq<char>) -> Seq<char> {
    if s.len() > PREVIEW_CHARS {
        s.take(PREVIEW_CHARS as int)
    } else {
        s
    }
}

/// The verdict that an outcome of the negotiation stands for.
pub open spec fn outcome_verdict(r: Result<(), ShutdownError>) -> Verdict {
    match r {
        Ok(()) => Verdict::Accepted,
        Err(ShutdownError::EndpointNotFound) => Verdict::EndpointNotFound,
        Err(ShutdownError::MethodNotAllowed) => Verdict::MethodNotAllowed,
        Err(ShutdownError::AuthenticationRequired) => Verdict::AuthenticationRequired,
        Err(ShutdownError::UnexpectedResponse(_)) => Verdict::UnexpectedResponse,
        Err(ShutdownError::TransportError(_)) => Verdict::TransportError,
    }
}

/// The literal shutdown request for the management endpoint at `host`.
pub fn shutdown_request(host: &str) -> (r: String)
    ensures
        r@ == request_text(host@),
{
    let mut r = String::from_str(REQUEST_HEAD);
    r.append(host);
    r.append(REQUEST_TAIL);
    r
}

/// Classifies a raw response text by substring, in rule order.
pub fn classify_response(response: &str) -> (r: Result<(), ShutdownError>)
    ensures
        outcome_verdict(r) == verdict_of(response@),
        r matches Err(ShutdownError::UnexpectedResponse(p)) ==> p@ == preview(response@),
{
    if contains(response, OK_LINE) || contains(response, NO_CONTENT_LINE) || contains(response, SHUTTING_DOWN) {
        Ok(())
    } else if contains(response, NOT_FOUND_LINE) {
        Err(ShutdownError::EndpointNotFound)
    } else if contains(response, NOT_ALLOWED_LINE) {
        Err(ShutdownError::MethodNotAllowed)
    } else if contains(response, UNAUTHORIZED_LINE) || contains(response, FORBIDDEN_LINE) {
        Err(ShutdownError::AuthenticationRequired)
    } else {
        let n = response.unicode_len();
        let kept = if n > PREVIEW_CHARS { PREVIEW_CHARS } else { n };
        let p = response.substring_char(0, kept);
        assert(p@ =~= preview(response@));
        Err(ShutdownError::UnexpectedResponse(String::from_str(p)))
    }
}

/// The outcome of a shutdown exchange: a transport failure is passed on,
/// a response is classified.
pub fn negotiation_outcome(exchange: Result<String, HttpError>) -> (r: Result<(), ShutdownError>)
    ensures
        match exchange {
            Ok(text) => {
                &&& outcome_verdict(r) == verdict_of(text@)
                &&& r matches Err(ShutdownError::UnexpectedResponse(p)) ==> p@ == preview(text@)
            },
            Err(e) => r == Err::<(), ShutdownError>(ShutdownError::TransportError(e)),
        },
{
    match exchange {
        Ok(text) => classify_response(text.as_str()),
        Err(e) => Err(ShutdownError::TransportError(e)),
    }
}

/// A response that holds both a success line and a later rule's line is a
/// success: the success rule is checked first.
pub proof fn lemma_success_rule_first(s: Seq<char>)
    requires
        contains_seq(s, OK_LINE@) || contains_seq(s, NO_CONTENT_LINE@) || contains_seq(s, SHUTTING_DOWN@),
    ensures
        verdict_of(s) == Verdict::Accepted,
{
}

} // verus!
