//! Responses, and the errors that a request can end in.

use vstd::prelude::*;
use vstd::string::StringExecFns;

verus! {

/// The media type of a response body or of a static file.
#[derive(Clone, Copy, Debug, PartialEq, Eq, Structural)]
pub enum ContentType {
    /// `text/html; charset=utf-8`
    Html,
    /// `application/json`
    Json,
    /// `text/plain; charset=utf-8`
    Text,
    /// `text/css`
    Css,
    /// `application/javascript`
    JavaScript,
    /// `image/png`
    Png,
}

impl ContentType {
    /// The value of the `Content-Type` header.
    pub open spec fn header(self) -> Seq<char> {
        match self {
            ContentType::Html => "text/html; charset=utf-8"@,
            ContentType::Json => "application/json"@,
            ContentType::Text => "text/plain; charset=utf-8"@,
            ContentType::Css => "text/css"@,
            ContentType::JavaScript => "application/javascript"@,
            ContentType::Png => "image/png"@,
        }
    }

    /// The value of the `Content-Type` header.
    pub fn header_value(self) -> (value: &'static str)
        ensures
            value@ == self.header(),
    {
        match self {
            ContentType::Html => "text/html; charset=utf-8",
            ContentType::Json => "application/json",
            ContentType::Text => "text/plain; charset=utf-8",
            ContentType::Css => "text/css",
            ContentType::JavaScript => "application/javascript",
            ContentType::Png => "image/png",
        }
    }
}

/// Why the body of a POST request was not accepted.
#[derive(Clone, Copy, Debug, PartialEq, Eq, Structural)]
pub enum BadRequest {
    /// The request does not declare its body as `application/json`.
    WrongContentType,
    /// The body is not a JSON document.
    MalformedJson,
    /// The body is a JSON document without a string under `name`.
    MissingName,
}

impl BadRequest {
    /// The reason, in words.
    pub open spec fn reason_text(self) -> Seq<char> {
        match self {
            BadRequest::WrongContentType => "expected a body of type application/json"@,
            BadRequest::MalformedJson => "the body is not valid JSON"@,
            BadRequest::MissingName => "the body has no string field \"name\""@,
        }
    }

    /// The reason, in words.
    pub fn reason(self) -> (text: &'static str)
        ensures
            text@ == self.reason_text(),
    {
        match self {
            BadRequest::WrongContentType => "expected a body of type application/json",
            BadRequest::MalformedJson => "the body is not valid JSON",
            BadRequest::MissingName => "the body has no string field \"name\"",
        }
    }
}

/// An error that ends a request. Each becomes a response; none leaves the
/// handler.
#[derive(Clone, Copy, Debug, PartialEq, Eq, Structural)]
pub enum RequestError {
    /// No route has the path.
    RouteNotFound,
    /// A route has the path, for another method.
    MethodNotAllowed,
    /// The body of a POST request was not accepted.
    BadRequest(BadRequest),
    /// The static file is missing, or its path leaves the root.
    StaticNotFound,
}

/// The status code of a successful response.
pub const OK: u16 = 200;

/// The status code for a body that was not accepted.
pub const BAD_REQUEST: u16 = 400;

/// The status code for a path without a route or a file.
pub const NOT_FOUND: u16 = 404;

/// The status code for a path whose route has another method.
pub const METHOD_NOT_ALLOWED: u16 = 405;

impl RequestError {
    /// The status code of the response.
    pub open spec fn status_code(self) -> u16 {
        match self {
            RequestError::RouteNotFound => NOT_FOUND,
            RequestError::MethodNotAllowed => METHOD_NOT_ALLOWED,
            RequestError::BadRequest(_) => BAD_REQUEST,
            RequestError::StaticNotFound => NOT_FOUND,
        }
    }

    /// The body of the response: the reason for a body that was not
    /// accepted, nothing for the others.
    pub open spec fn body_text(self) -> Seq<char> {
        match self {
            RequestError::BadRequest(why) => why.reason_text(),
            _ => Seq::empty(),
        }
    }

    /// The status code of the response.
    pub fn status(self) -> (code: u16)
        ensures
            code == self.status_code(),
    {
        match self {
            RequestError::RouteNotFound => NOT_FOUND,
            RequestError::MethodNotAllowed => METHOD_NOT_ALLOWED,
            RequestError::BadRequest(_) => BAD_REQUEST,
            RequestError::StaticNotFound => NOT_FOUND,
        }
    }

    /// The response that reports the error.
    pub fn response(self) -> (response: Response)
        ensures
            response.view() == error_reply(self),
    {
        let body = match self {
            RequestError::BadRequest(why) => String::from_str(why.reason()),
            _ => String::new(),
        };
        Response { status: self.status(), content_type: ContentType::Text, body }
    }
}

/// What is sent back for a request.
#[derive(Clone, Debug, PartialEq, Eq)]
pub struct Response {
    pub status: u16,
    pub content_type: ContentType,
    pub body: String,
}

/// A response, with its body as a sequence of characters.
pub struct Reply {
    pub status: u16,
    pub content_type: ContentType,
    pub body: Seq<char>,
}

impl View for Response {
    type V = Reply;

    open spec fn view(&self) -> Reply {
        Reply { status: self.status, content_type: self.content_type, body: self.body@ }
    }
}

/// The response with status 200 and the given body.
pub open spec fn ok_reply(content_type: ContentType, body: Seq<char>) -> Reply {
    Reply { status: OK, content_type, body }
}

/// The response that reports an error.
pub open spec fn error_reply(error: RequestError) -> Reply {
    Reply { status: error.status_code(), content_type: ContentType::Text, body: error.body_text() }
}

impl Response {
    /// The response with status 200 and the given body.
    pub fn ok(content_type: ContentType, body: String) -> (response: Response)
        ensures
            response.view() == ok_reply(content_type, body@),
    {
        Response { status: OK, content_type, body }
    }
}

} // verus!
