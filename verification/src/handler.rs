//! The handlers, and the function that takes a request to what is done for
//! it.

use vstd::prelude::*;
use vstd::string::StringExecFns;
use crate::files::{file_type, file_type_of, has_parent_segment, percent_decoded};
use crate::media::{declares_json, is_json};
use crate::page::{
    content_fragment, fragment, greeting, index_document, index_page,
    lemma_fragment_holds_greeting, lemma_index_document_contents,
};
use crate::payload::{decode_payload, decoded_view, encode_payload, json_members, payload_document, payload_of, FormPayload};
use crate::response::{error_reply, ok_reply, BadRequest, ContentType, Reply, RequestError, Response, BAD_REQUEST, NOT_FOUND, OK};
use crate::route::{exact_route, route, route_of, static_prefix, Method, Route, Target};
use crate::text::{occurs_in, starts_with};

verus! {

/// A request, as far as the handlers read it.
#[derive(Clone, Debug, PartialEq, Eq)]
pub struct Request {
    pub method: Method,
    /// The path of the request's URL, without the query.
    pub path: String,
    /// The value of the `Content-Type` header, if there is one.
    pub content_type: Option<String>,
    pub body: Vec<u8>,
}

/// What is done for a request.
#[derive(Clone, Debug, PartialEq, Eq)]
pub enum Action {
    /// The response is sent. Where the handler writes a line to the debug
    /// log, `log` is that line.
    Respond { response: Response, log: Option<String> },
    /// The static file service answers, for the file with this path below
    /// its root. Where `content_type` is known, the file is sent as that.
    ServeFile { path: String, content_type: Option<ContentType> },
}

/// What is done for a request, with texts as sequences of characters.
pub enum Plan {
    Respond { reply: Reply, log: Option<Seq<char>> },
    ServeFile { path: Seq<char>, content_type: Option<ContentType> },
}

impl View for Action {
    type V = Plan;

    open spec fn view(&self) -> Plan {
        match self {
            Action::Respond { response, log } => Plan::Respond {
                reply: response@,
                log: match log {
                    Some(line) => Some(line@),
                    None => None,
                },
            },
            Action::ServeFile { path, content_type } => Plan::ServeFile {
                path: path@,
                content_type: *content_type,
            },
        }
    }
}

/// The line that the JSON endpoint writes to the debug log.
pub open spec fn click_text(name: Seq<char>) -> Seq<char> {
    "click! name:: "@ + name
}

/// The payload of a POST request: the request declares a JSON body, and the
/// body holds a payload; else the reason why it is not accepted.
pub open spec fn accepted(content_type: Option<Seq<char>>, body: Seq<u8>) -> Result<
    Seq<char>,
    BadRequest,
> {
    if content_type is Some && declares_json(content_type->0) {
        payload_of(json_members(body))
    } else {
        Err(BadRequest::WrongContentType)
    }
}

/// The response of the index page.
pub open spec fn index_reply() -> Reply {
    ok_reply(ContentType::Html, index_document())
}

/// The response of the JSON endpoint to a payload.
pub open spec fn json_reply(name: Seq<char>) -> Reply {
    ok_reply(ContentType::Json, payload_document(name))
}

/// The response of the HTML endpoint to a payload.
pub open spec fn html_reply(name: Seq<char>) -> Reply {
    ok_reply(ContentType::Html, fragment(name))
}

/// What is done for a request that ends in an error.
pub open spec fn refusal(error: RequestError) -> Plan {
    Plan::Respond { reply: error_reply(error), log: None }
}

/// What is done for a request.
pub open spec fn plan_of(
    method: Method,
    path: Seq<char>,
    content_type: Option<Seq<char>>,
    body: Seq<u8>,
) -> Plan {
    match route_of(method, path) {
        Target::Index => Plan::Respond { reply: index_reply(), log: None },
        Target::JsonEcho => match accepted(content_type, body) {
            Ok(name) => Plan::Respond { reply: json_reply(name), log: Some(click_text(name)) },
            Err(why) => refusal(RequestError::BadRequest(why)),
        },
        Target::HtmlEcho => match accepted(content_type, body) {
            Ok(name) => Plan::Respond { reply: html_reply(name), log: None },
            Err(why) => refusal(RequestError::BadRequest(why)),
        },
        Target::Static(path) => Plan::ServeFile {
            path,
            content_type: file_type_of(percent_decoded(path)),
        },
        Target::Rejected(error) => refusal(error),
    }
}

/// The value of a header, if there is one, as a sequence of characters.
pub open spec fn header_view(value: Option<String>) -> Option<Seq<char>> {
    match value {
        Some(value) => Some(value@),
        None => None,
    }
}

/// Answers `GET /` with the index page.
pub fn index() -> (response: Response)
    ensures
        response@ == index_reply(),
{
    Response::ok(ContentType::Html, index_page())
}

/// Answers `POST /json`: echoes the payload as its canonical JSON document.
pub fn json_response(payload: &FormPayload) -> (response: Response)
    ensures
        response@ == json_reply(payload@),
{
    Response::ok(ContentType::Json, encode_payload(payload.name.as_str()))
}

/// Answers `POST /html` with the fragment that greets the payload's name.
pub fn html_response(payload: &FormPayload) -> (response: Response)
    ensures
        response@ == html_reply(payload@),
{
    Response::ok(ContentType::Html, content_fragment(payload.name.as_str()))
}

/// The line that the JSON endpoint writes to the debug log for a payload.
pub fn click_line(payload: &FormPayload) -> (line: String)
    ensures
        line@ == click_text(payload@),
{
    let mut line = String::from_str("click! name:: ");
    line.append(payload.name.as_str());
    line
}

/// Reads the payload of a POST request from the header value and the body.
pub fn accept_payload(content_type: &Option<String>, body: &[u8]) -> (payload: Result<
    FormPayload,
    BadRequest,
>)
    ensures
        decoded_view(payload) == accepted(header_view(*content_type), body@),
{
    let declared = match content_type {
        Some(value) => is_json(value.as_str()),
        None => false,
    };
    if declared {
        decode_payload(body)
    } else {
        Err(BadRequest::WrongContentType)
    }
}

/// What is done for a request that ends in an error.
pub fn refuse(error: RequestError) -> (action: Action)
    ensures
        action@ == refusal(error),
{
    Action::Respond { response: error.response(), log: None }
}

/// Decides what is done for a request.
pub fn handle(request: &Request) -> (action: Action)
    ensures
        action@ == plan_of(
            request.method,
            request.path@,
            header_view(request.content_type),
            request.body@,
        ),
{
    match route(request.method, request.path.as_str()) {
        Route::Index => Action::Respond { response: index(), log: None },
        Route::JsonEcho => match accept_payload(&request.content_type, request.body.as_slice()) {
            Ok(payload) => Action::Respond {
                response: json_response(&payload),
                log: Some(click_line(&payload)),
            },
            Err(why) => refuse(RequestError::BadRequest(why)),
        },
        Route::HtmlEcho => match accept_payload(&request.content_type, request.body.as_slice()) {
            Ok(payload) => Action::Respond { response: html_response(&payload), log: None },
            Err(why) => refuse(RequestError::BadRequest(why)),
        },
        Route::Static(path) => {
            let content_type = file_type(path.as_str());
            Action::ServeFile { path, content_type }
        },
        Route::Rejected(error) => refuse(error),
    }
}

/// Every `GET /` is answered with status 200 and the index document, which
/// begins with the document type declaration and holds the `content`
/// element, the input named `name` and its label, the button that posts to
/// `/html` and the URL of the client library. Neither the header nor the
/// body of the request matters.
pub proof fn lemma_get_index(content_type: Option<Seq<char>>, body: Seq<u8>)
    ensures
        plan_of(Method::Get, "/"@, content_type, body) == (Plan::Respond {
            reply: index_reply(),
            log: None,
        }),
        index_reply().status == OK,
        index_reply().content_type == ContentType::Html,
        starts_with(index_reply().body, "<!DOCTYPE"@),
        occurs_in(index_reply().body, "id=\"content\""@),
        occurs_in(index_reply().body, "<label for=\"name\">Name</label>"@),
        occurs_in(index_reply().body, "id=\"name\""@),
        occurs_in(index_reply().body, "name=\"name\""@),
        occurs_in(index_reply().body, "hx-post=\"/html\""@),
        occurs_in(index_reply().body, "/html"@),
        occurs_in(index_reply().body, "static/js/htmx.v1.9.8.min.js"@),
{
    lemma_index_document_contents();
}

/// Every `POST /json` whose payload is accepted is answered with status 200,
/// the canonical JSON document of exactly the name that was read, and the
/// line for the log.
pub proof fn lemma_post_json(content_type: Option<Seq<char>>, body: Seq<u8>, name: Seq<char>)
    requires
        accepted(content_type, body) == Ok::<Seq<char>, BadRequest>(name),
    ensures
        plan_of(Method::Post, "/json"@, content_type, body) == (Plan::Respond {
            reply: json_reply(name),
            log: Some(click_text(name)),
        }),
        json_reply(name).status == OK,
        json_reply(name).content_type == ContentType::Json,
        json_reply(name).body == payload_document(name),
{
    lemma_exact_paths();
}

/// Every `POST /html` whose payload is accepted is answered with status 200
/// and the fragment for the name that was read: a body that holds the
/// greeting round the escaped name, between two texts that do not depend on
/// the name.
pub proof fn lemma_post_html(content_type: Option<Seq<char>>, body: Seq<u8>, name: Seq<char>)
    requires
        accepted(content_type, body) == Ok::<Seq<char>, BadRequest>(name),
    ensures
        plan_of(Method::Post, "/html"@, content_type, body) == (Plan::Respond {
            reply: html_reply(name),
            log: None,
        }),
        html_reply(name).status == OK,
        html_reply(name).content_type == ContentType::Html,
        html_reply(name).body == fragment(name),
        occurs_in(html_reply(name).body, greeting(name)),
{
    lemma_exact_paths();
    lemma_fragment_holds_greeting(name);
}

/// Every POST to one of the two endpoints whose payload is not accepted is
/// answered with status 400 and the reason, in words.
pub proof fn lemma_post_rejected(
    path: Seq<char>,
    content_type: Option<Seq<char>>,
    body: Seq<u8>,
    why: BadRequest,
)
    requires
        path == "/json"@ || path == "/html"@,
        accepted(content_type, body) == Err::<Seq<char>, BadRequest>(why),
    ensures
        plan_of(Method::Post, path, content_type, body) == refusal(RequestError::BadRequest(why)),
        error_reply(RequestError::BadRequest(why)).status == BAD_REQUEST,
        error_reply(RequestError::BadRequest(why)).body == why.reason_text(),
{
    lemma_exact_paths();
}

/// The three exact paths differ from each other, and none is below
/// `/static/`.
pub proof fn lemma_exact_paths()
    ensures
        "/"@ != "/json"@,
        "/"@ != "/html"@,
        "/json"@ != "/html"@,
        !starts_with("/"@, static_prefix()),
        !starts_with("/json"@, static_prefix()),
        !starts_with("/html"@, static_prefix()),
{
    reveal_strlit("/");
    reveal_strlit("/json");
    reveal_strlit("/html");
    reveal_strlit("/static/");
    assert("/"@.len() == 1);
    assert("/json"@.len() == 5);
    assert("/html"@.len() == 5);
    assert("/json"@[1] == 'j');
    assert("/html"@[1] == 'h');
}

/// Every request for a path that is none of the three exact paths and is not
/// below `/static/` is answered with status 404, whatever its method, header
/// and body.
pub proof fn lemma_unknown_path(
    method: Method,
    path: Seq<char>,
    content_type: Option<Seq<char>>,
    body: Seq<u8>,
)
    requires
        path != "/"@,
        path != "/json"@,
        path != "/html"@,
        !starts_with(path, static_prefix()),
    ensures
        plan_of(method, path, content_type, body) == refusal(RequestError::RouteNotFound),
        error_reply(RequestError::RouteNotFound).status == NOT_FOUND,
{
}

/// Two requests with the same method, path, header and body are answered
/// alike: the same response, byte for byte, the same line for the log, the
/// same file.
pub proof fn lemma_same_request_same_answer(first: Request, second: Request)
    requires
        first.method == second.method,
        first.path@ == second.path@,
        header_view(first.content_type) == header_view(second.content_type),
        first.body@ == second.body@,
    ensures
        plan_of(first.method, first.path@, header_view(first.content_type), first.body@)
            == plan_of(second.method, second.path@, header_view(second.content_type), second.body@),
{
}

/// Every request for a path below `/static/` none of whose segments, once
/// decoded, is `..` goes to the file service, whatever its method, with the
/// path that follows the prefix and the media type that the extension gives.
pub proof fn lemma_static_file(
    method: Method,
    relative: Seq<char>,
    content_type: Option<Seq<char>>,
    body: Seq<u8>,
)
    requires
        !has_parent_segment(percent_decoded(relative)),
    ensures
        plan_of(method, static_prefix() + relative, content_type, body) == (Plan::ServeFile {
            path: relative,
            content_type: file_type_of(percent_decoded(relative)),
        }),
{
    lemma_below_static(relative);
}

/// Every request for a path below `/static/` one of whose segments is `..`,
/// written as it is or percent-encoded, is answered with status 404.
pub proof fn lemma_static_traversal(
    method: Method,
    relative: Seq<char>,
    content_type: Option<Seq<char>>,
    body: Seq<u8>,
)
    requires
        has_parent_segment(percent_decoded(relative)),
    ensures
        plan_of(method, static_prefix() + relative, content_type, body) == refusal(
            RequestError::StaticNotFound,
        ),
        error_reply(RequestError::StaticNotFound).status == NOT_FOUND,
{
    lemma_below_static(relative);
}

/// A path made of the static prefix and a relative path is none of the
/// exact paths, and what follows its prefix is the relative path.
proof fn lemma_below_static(relative: Seq<char>)
    ensures
        exact_route(static_prefix() + relative) is None,
        starts_with(static_prefix() + relative, static_prefix()),
        (static_prefix() + relative).skip(static_prefix().len() as int) == relative,
{
    reveal_strlit("/");
    reveal_strlit("/json");
    reveal_strlit("/html");
    reveal_strlit("/static/");
    let path = static_prefix() + relative;
    assert(path.len() >= 8);
    assert(path.subrange(0, 8) == static_prefix());
    assert(path.skip(8) == relative);
}

} // verus!
