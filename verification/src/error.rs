//! The error taxonomy of the client and the mapping from HTTP status codes
//! to error kinds.

use crate::json::{
    lookup, member, member_view, members, parse_document, parsed_members, Member, MemberView,
};
use crate::text::{decimal, push_decimal};
use vstd::prelude::*;

verus! {

/// Every way a call, or the construction of a client, can fail.
#[derive(Debug, Clone, PartialEq, Eq)]
pub enum PuxbayError {
    /// The API key does not start with `pb_`.
    InvalidApiKey,
    /// The server answered 401.
    AuthenticationError(String),
    /// The server answered 429 and the retry budget is spent.
    RateLimitError(String),
    /// The server answered 400.
    ValidationError(String),
    /// The server answered 404.
    NotFoundError(String),
    /// The server answered 5xx and the retry budget is spent.
    ServerError(String),
    /// Any other non-success status, kept with the message.
    ApiError(String, u16),
    /// The transport failed before a complete response was received.
    RequestError(String),
    /// A success response whose body could not be decoded.
    DecodeError(String),
    /// The dispatcher was driven out of protocol.
    UnknownError,
}

/// Mathematical view of a [`PuxbayError`]: the same variants over character
/// sequences.
pub enum ErrorView {
    InvalidApiKey,
    Authentication(Seq<char>),
    RateLimit(Seq<char>),
    Validation(Seq<char>),
    NotFound(Seq<char>),
    Server(Seq<char>),
    Api(Seq<char>, u16),
    Request(Seq<char>),
    Decode(Seq<char>),
    Unknown,
}

impl View for PuxbayError {
    type V = ErrorView;

    open spec fn view(&self) -> ErrorView {
        match self {
            PuxbayError::InvalidApiKey => ErrorView::InvalidApiKey,
            PuxbayError::AuthenticationError(m) => ErrorView::Authentication(m@),
            PuxbayError::RateLimitError(m) => ErrorView::RateLimit(m@),
            PuxbayError::ValidationError(m) => ErrorView::Validation(m@),
            PuxbayError::NotFoundError(m) => ErrorView::NotFound(m@),
            PuxbayError::ServerError(m) => ErrorView::Server(m@),
            PuxbayError::ApiError(m, status) => ErrorView::Api(m@, *status),
            PuxbayError::RequestError(m) => ErrorView::Request(m@),
            PuxbayError::DecodeError(m) => ErrorView::Decode(m@),
            PuxbayError::UnknownError => ErrorView::Unknown,
        }
    }
}

/// Status codes 200 to 299.
pub open spec fn is_success(status: u16) -> bool {
    200 <= status < 300
}

/// Status codes 500 to 599.
pub open spec fn is_server_error(status: u16) -> bool {
    500 <= status < 600
}

/// Statuses worth another attempt: 429 and every 5xx.
pub open spec fn is_transient(status: u16) -> bool {
    status == 429 || is_server_error(status)
}

/// The error kind that a terminal response with `status` surfaces as,
/// carrying `message`.
pub open spec fn classify(status: u16, message: Seq<char>) -> ErrorView {
    if status == 401 {
        ErrorView::Authentication(message)
    } else if status == 429 {
        ErrorView::RateLimit(message)
    } else if status == 400 {
        ErrorView::Validation(message)
    } else if status == 404 {
        ErrorView::NotFound(message)
    } else if is_server_error(status) {
        ErrorView::Server(message)
    } else {
        ErrorView::Api(message, status)
    }
}

/// Whether an error is one of the kinds reported by the API through a
/// status code.
pub open spec fn is_api_reported(e: ErrorView) -> bool {
    e is Authentication || e is RateLimit || e is Validation || e is NotFound || e is Server
        || e is Api
}

/// The human-readable rendering of an error.
pub open spec fn rendering(e: ErrorView) -> Seq<char> {
    match e {
        ErrorView::InvalidApiKey => "Invalid API key format. Must start with 'pb_'"@,
        ErrorView::Authentication(m) => "Authentication error: "@ + m,
        ErrorView::RateLimit(m) => "Rate limit error: "@ + m,
        ErrorView::Validation(m) => "Validation error: "@ + m,
        ErrorView::NotFound(m) => "Not found error: "@ + m,
        ErrorView::Server(m) => "Server error: "@ + m,
        ErrorView::Api(m, status) => "API error: "@ + m + " (status: "@ + decimal(status as int)
            + ")"@,
        ErrorView::Request(m) => "Request error: "@ + m,
        ErrorView::Decode(m) => "Decode error: "@ + m,
        ErrorView::Unknown => "Unknown error"@,
    }
}

/// Whether a status is in the 2xx range.
pub fn status_is_success(status: u16) -> (b: bool)
    ensures
        b == is_success(status),
{
    200 <= status && status < 300
}

/// Whether a status is in the 5xx range.
pub fn status_is_server_error(status: u16) -> (b: bool)
    ensures
        b == is_server_error(status),
{
    500 <= status && status < 600
}

/// Whether a status is worth another attempt.
pub fn status_is_transient(status: u16) -> (b: bool)
    ensures
        b == is_transient(status),
{
    status == 429 || status_is_server_error(status)
}

/// Joins a fixed label and a message.
fn labelled(label: &str, message: &String) -> (out: String)
    ensures
        out@ == label@ + message@,
{
    let mut out: String = String::from_str(label);
    out.append(message.as_str());
    out
}

impl PuxbayError {
    /// Classifies a terminal response by its status code.
    pub fn from_status(status: u16, message: String) -> (e: PuxbayError)
        ensures
            e@ == classify(status, message@),
    {
        if status == 401 {
            PuxbayError::AuthenticationError(message)
        } else if status == 429 {
            PuxbayError::RateLimitError(message)
        } else if status == 400 {
            PuxbayError::ValidationError(message)
        } else if status == 404 {
            PuxbayError::NotFoundError(message)
        } else if status_is_server_error(status) {
            PuxbayError::ServerError(message)
        } else {
            PuxbayError::ApiError(message, status)
        }
    }

    /// The human-readable rendering of the error.
    pub fn message(&self) -> (out: String)
        ensures
            out@ == rendering(self@),
    {
        match self {
            PuxbayError::InvalidApiKey => String::from_str(
                "Invalid API key format. Must start with 'pb_'",
            ),
            PuxbayError::AuthenticationError(m) => labelled("Authentication error: ", m),
            PuxbayError::RateLimitError(m) => labelled("Rate limit error: ", m),
            PuxbayError::ValidationError(m) => labelled("Validation error: ", m),
            PuxbayError::NotFoundError(m) => labelled("Not found error: ", m),
            PuxbayError::ServerError(m) => labelled("Server error: ", m),
            PuxbayError::ApiError(m, status) => {
                let mut out: String = labelled("API error: ", m);
                out.append(" (status: ");
                push_decimal(&mut out, *status as u64);
                out.append(")");
                out
            },
            PuxbayError::RequestError(m) => labelled("Request error: ", m),
            PuxbayError::DecodeError(m) => labelled("Decode error: ", m),
            PuxbayError::UnknownError => String::from_str("Unknown error"),
        }
    }
}

/// The body of an error response: an object with two optional text fields.
#[derive(Debug, Clone, PartialEq, Eq)]
pub struct ErrorResponse {
    pub detail: Option<String>,
    pub message: Option<String>,
}

/// Mathematical view of an [`ErrorResponse`].
pub struct ErrorResponseView {
    pub detail: Option<Seq<char>>,
    pub message: Option<Seq<char>>,
}

/// View of an optional string.
pub open spec fn text_view(t: Option<String>) -> Option<Seq<char>> {
    match t {
        Some(s) => Some(s@),
        None => None,
    }
}

impl View for ErrorResponse {
    type V = ErrorResponseView;

    open spec fn view(&self) -> ErrorResponseView {
        ErrorResponseView { detail: text_view(self.detail), message: text_view(self.message) }
    }
}

/// View of an optional payload.
pub open spec fn payload_view(p: Option<ErrorResponse>) -> Option<ErrorResponseView> {
    match p {
        Some(r) => Some(r@),
        None => None,
    }
}

/// How an optional text field reads a member. A missing member and `null`
/// both give no text, a string gives its text, and any other JSON type does
/// not fit the field (the outer `None`).
pub open spec fn text_field(m: Option<MemberView>) -> Option<Option<Seq<char>>> {
    match m {
        None => Some(None),
        Some(MemberView::Null) => Some(None),
        Some(MemberView::Text(t)) => Some(Some(t)),
        Some(_) => None,
    }
}

/// The payload made of the two members, if both fit their fields.
pub open spec fn payload_of(detail: Option<MemberView>, message: Option<MemberView>) -> Option<
    ErrorResponseView,
> {
    match (text_field(detail), text_field(message)) {
        (Some(d), Some(m)) => Some(ErrorResponseView { detail: d, message: m }),
        _ => None,
    }
}

/// The payload held by the members of a document: its `detail` and its
/// `message`, if both fit their fields.
pub open spec fn payload_in(doc: Map<Seq<char>, MemberView>) -> Option<ErrorResponseView> {
    payload_of(lookup(doc, "detail"@), lookup(doc, "message"@))
}

/// The payload that a response body spells: `None` where the body is not
/// JSON or a field has the wrong type.
pub open spec fn error_payload(body: Seq<char>) -> Option<ErrorResponseView> {
    match parsed_members(body) {
        Some(doc) => payload_in(doc),
        None => None,
    }
}

/// The message surfaced for a payload: `detail` if present, else `message`,
/// else the fixed fallback.
pub open spec fn error_message(payload: Option<ErrorResponseView>) -> Seq<char> {
    match payload {
        Some(ErrorResponseView { detail: Some(d), message: _ }) => d,
        Some(ErrorResponseView { detail: None, message: Some(m) }) => m,
        _ => "Unknown error"@,
    }
}

/// Reads one member as an optional text field.
fn read_text_field(m: Option<Member>) -> (r: Option<Option<String>>)
    ensures
        match r {
            Some(t) => text_field(member_view(m)) == Some(text_view(t)),
            None => text_field(member_view(m)) is None,
        },
{
    match m {
        None => Some(None),
        Some(Member::Null) => Some(None),
        Some(Member::Text(t)) => Some(Some(t)),
        Some(_) => None,
    }
}

impl ErrorResponse {
    /// Builds the payload from the two members of a parsed body.
    pub fn from_members(detail: Option<Member>, message: Option<Member>) -> (r: Option<
        ErrorResponse,
    >)
        ensures
            payload_view(r) == payload_of(member_view(detail), member_view(message)),
    {
        match read_text_field(detail) {
            Some(d) => match read_text_field(message) {
                Some(m) => Some(ErrorResponse { detail: d, message: m }),
                None => None,
            },
            None => None,
        }
    }

    /// Reads the payload out of a parsed document.
    pub fn from_document(doc: &serde_json::Value) -> (r: Option<ErrorResponse>)
        ensures
            payload_view(r) == payload_in(members(*doc)),
    {
        let detail: Option<Member> = member(doc, "detail");
        let message: Option<Member> = member(doc, "message");
        ErrorResponse::from_members(detail, message)
    }

    /// Parses a response body as an error payload.
    pub fn parse(body: &str) -> (r: Option<ErrorResponse>)
        ensures
            payload_view(r) == error_payload(body@),
    {
        match parse_document(body) {
            Some(doc) => ErrorResponse::from_document(&doc),
            None => None,
        }
    }
}

/// The message to surface for a parsed, or unparseable, payload.
pub fn message_or_unknown(payload: Option<ErrorResponse>) -> (text: String)
    ensures
        text@ == error_message(payload_view(payload)),
{
    match payload {
        Some(ErrorResponse { detail: Some(d), message: _ }) => d,
        Some(ErrorResponse { detail: None, message: Some(m) }) => m,
        _ => String::from_str("Unknown error"),
    }
}

/// A response classified from a status code is always one of the
/// API-reported kinds; in particular it is never a decode failure, a
/// transport failure or an invalid-key error.
pub proof fn lemma_classify_is_api_reported(status: u16, message: Seq<char>)
    ensures
        is_api_reported(classify(status, message)),
{
}

/// The classification table: 401, 429, 400, 404 and 5xx each have their own
/// kind; everything else keeps its status code.
pub proof fn lemma_classify_table(status: u16, message: Seq<char>)
    ensures
        status == 401 <==> classify(status, message) is Authentication,
        status == 429 <==> classify(status, message) is RateLimit,
        status == 400 <==> classify(status, message) is Validation,
        status == 404 <==> classify(status, message) is NotFound,
        is_server_error(status) <==> classify(status, message) is Server,
        classify(status, message) is Api ==> classify(status, message) == ErrorView::Api(
            message,
            status,
        ),
{
}

} // verus!
