//! Requests to the GitHub REST API as plain values, the replies they get,
//! and the errors that a reply is turned into.
use vstd::prelude::*;
use crate::json::JsonValue;
use crate::text::dec_nat;

verus! {

/// The HTTP methods that the GitHub API is called with.
#[derive(PartialEq, Eq, Structural, Debug, Clone, Copy)]
pub enum HttpMethod {
    Get,
    Post,
    Put,
}

/// A request to send: method, URL, headers in order, an optional JSON
/// body, and the message that reports a failure to send it.
#[derive(Debug)]
pub struct HttpRequest {
    pub method: HttpMethod,
    pub url: String,
    pub headers: Vec<(String, String)>,
    pub body: Option<JsonValue>,
    pub failure: String,
}

/// Header names and values as text.
pub open spec fn headers_view(h: Seq<(String, String)>) -> Seq<(Seq<char>, Seq<char>)> {
    h.map_values(|p: (String, String)| (p.0@, p.1@))
}

/// The reply to a request: the status code, the body as text, and the body
/// read as JSON (or the message of the failure to read it).
#[derive(Debug)]
pub struct HttpReply {
    pub status: u16,
    pub text: String,
    pub json: Result<JsonValue, String>,
}

impl HttpReply {
    /// Status codes are three-digit numbers.
    pub open spec fn wf(&self) -> bool {
        100 <= self.status <= 999
    }
}

/// Whether a status code reports success (200 to 299).
pub open spec fn is_success(status: u16) -> bool {
    200 <= status <= 299
}

/// Why a call to the API failed.
#[derive(Debug)]
pub enum ApiError {
    /// The request could not be sent or answered; holds what was being done.
    Transport(String),
    /// The API answered with an unexpected status; holds the whole message.
    Status(String),
    /// A successful answer lacked the list that was asked for.
    InvalidFormat,
    /// A successful answer was not JSON; holds the reader's message.
    Decode(String),
}

/// An `ApiError` with its text as character sequences.
pub enum ApiErrorView {
    Transport(Seq<char>),
    Status(Seq<char>),
    InvalidFormat,
    Decode(Seq<char>),
}

impl View for ApiError {
    type V = ApiErrorView;

    open spec fn view(&self) -> ApiErrorView {
        match self {
            ApiError::Transport(s) => ApiErrorView::Transport(s@),
            ApiError::Status(s) => ApiErrorView::Status(s@),
            ApiError::InvalidFormat => ApiErrorView::InvalidFormat,
            ApiError::Decode(s) => ApiErrorView::Decode(s@),
        }
    }
}

/// The text that reports an error.
pub open spec fn error_message(e: ApiErrorView) -> Seq<char> {
    match e {
        ApiErrorView::Transport(s) => s,
        ApiErrorView::Status(s) => s,
        ApiErrorView::InvalidFormat => "Invalid response format"@,
        ApiErrorView::Decode(s) => s,
    }
}

impl ApiError {
    /// The text that reports this error.
    pub fn message(&self) -> (r: String)
        ensures
            r@ == error_message(self@),
    {
        match self {
            ApiError::Transport(s) => s.clone(),
            ApiError::Status(s) => s.clone(),
            ApiError::InvalidFormat => "Invalid response format".to_string(),
            ApiError::Decode(s) => s.clone(),
        }
    }
}

/// The error for a request that could not be sent.
pub fn transport_error(request: &HttpRequest) -> (r: ApiError)
    ensures
        r@ == ApiErrorView::Transport(request.failure@),
{
    ApiError::Transport(request.failure.clone())
}

/// How a status code is displayed: its number, a space, and its reason
/// phrase (or a placeholder for codes without one).
pub uninterp spec fn status_display(code: u16) -> Seq<char>;

/// Calls `reqwest::StatusCode::from_u16` and the status code's `Display`.
/// The source writes the code's number, a space, then the canonical reason
/// phrase or `<unknown status code>`; the result is named `status_display`,
/// and only its first part, the number and the space, is stated.
#[verifier::external_body]
pub(crate) fn status_text(code: u16) -> (r: String)
    requires
        100 <= code <= 999,
    ensures
        r@ == status_display(code),
        dec_nat(code as nat).len() < r@.len(),
        r@.take(dec_nat(code as nat).len() + 1int) == dec_nat(code as nat).push(' '),
{
    match reqwest::StatusCode::from_u16(code) {
        Ok(status) => status.to_string(),
        Err(_) => String::new(),
    }
}

/// The display of `code` starts with its number and a space.
pub open spec fn shows_code(code: u16) -> bool {
    &&& dec_nat(code as nat).len() < status_display(code).len()
    &&& status_display(code).take(dec_nat(code as nat).len() + 1int) == dec_nat(code as nat).push(' ')
}

/// `prefix: <status> - <body>`, the message for an unexpected status.
pub open spec fn status_failure(prefix: Seq<char>, code: u16, text: Seq<char>) -> Seq<char> {
    prefix + ": "@ + status_display(code) + " - "@ + text
}

/// Builds the message for an unexpected status.
pub fn status_message(prefix: &str, reply: &HttpReply) -> (r: String)
    requires
        reply.wf(),
    ensures
        r@ == status_failure(prefix@, reply.status, reply.text@),
        shows_code(reply.status),
{
    let mut s = prefix.to_string();
    s.append(": ");
    let status = status_text(reply.status);
    s.append(status.as_str());
    s.append(" - ");
    s.append(reply.text.as_str());
    s
}

/// Accepts a successful reply; any other status becomes a `Status` error
/// whose message starts with `prefix`.
pub fn check_success(prefix: &str, reply: &HttpReply) -> (r: Result<(), ApiError>)
    requires
        reply.wf(),
    ensures
        r is Ok <==> is_success(reply.status),
        r matches Err(e) ==> e@ == ApiErrorView::Status(
            status_failure(prefix@, reply.status, reply.text@),
        ),
        !is_success(reply.status) ==> shows_code(reply.status),
{
    if 200 <= reply.status && reply.status <= 299 {
        Ok(())
    } else {
        Err(ApiError::Status(status_message(prefix, reply)))
    }
}

/// The headers that every call to the GitHub API carries.
pub open spec fn github_headers(token: Seq<char>) -> Seq<(Seq<char>, Seq<char>)> {
    seq![
        ("Authorization"@, "Bearer "@ + token),
        ("Accept"@, "application/vnd.github.v3+json"@),
        ("User-Agent"@, "woGAer"@),
    ]
}

/// Builds the GitHub API headers for `token`.
pub fn github_header_list(token: &str) -> (r: Vec<(String, String)>)
    ensures
        headers_view(r@) == github_headers(token@),
{
    let mut bearer = "Bearer ".to_string();
    bearer.append(token);
    let mut h: Vec<(String, String)> = Vec::new();
    h.push(("Authorization".to_string(), bearer));
    h.push(("Accept".to_string(), "application/vnd.github.v3+json".to_string()));
    h.push(("User-Agent".to_string(), "woGAer".to_string()));
    assert(headers_view(h@) =~= github_headers(token@));
    h
}

} // verus!
