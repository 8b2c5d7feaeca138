use htmx_echo::response::{
    BadRequest, ContentType, RequestError, Response, BAD_REQUEST, METHOD_NOT_ALLOWED, NOT_FOUND,
    OK,
};

#[test]
fn status_codes() {
    assert_eq!(OK, 200);
    assert_eq!(BAD_REQUEST, 400);
    assert_eq!(NOT_FOUND, 404);
    assert_eq!(METHOD_NOT_ALLOWED, 405);
}

#[test]
fn each_error_has_its_status() {
    assert_eq!(RequestError::RouteNotFound.status(), 404);
    assert_eq!(RequestError::MethodNotAllowed.status(), 405);
    assert_eq!(RequestError::StaticNotFound.status(), 404);
    assert_eq!(RequestError::BadRequest(BadRequest::WrongContentType).status(), 400);
    assert_eq!(RequestError::BadRequest(BadRequest::MalformedJson).status(), 400);
    assert_eq!(RequestError::BadRequest(BadRequest::MissingName).status(), 400);
}

#[test]
fn each_bad_request_has_its_reason() {
    assert_eq!(BadRequest::WrongContentType.reason(), "expected a body of type application/json");
    assert_eq!(BadRequest::MalformedJson.reason(), "the body is not valid JSON");
    assert_eq!(BadRequest::MissingName.reason(), "the body has no string field \"name\"");
}

#[test]
fn error_responses() {
    assert_eq!(
        RequestError::RouteNotFound.response(),
        Response { status: 404, content_type: ContentType::Text, body: String::new() }
    );
    assert_eq!(
        RequestError::MethodNotAllowed.response(),
        Response { status: 405, content_type: ContentType::Text, body: String::new() }
    );
    assert_eq!(
        RequestError::StaticNotFound.response(),
        Response { status: 404, content_type: ContentType::Text, body: String::new() }
    );
    assert_eq!(
        RequestError::BadRequest(BadRequest::MalformedJson).response(),
        Response {
            status: 400,
            content_type: ContentType::Text,
            body: "the body is not valid JSON".to_string(),
        }
    );
}

#[test]
fn content_type_headers() {
    assert_eq!(ContentType::Html.header_value(), "text/html; charset=utf-8");
    assert_eq!(ContentType::Json.header_value(), "application/json");
    assert_eq!(ContentType::Text.header_value(), "text/plain; charset=utf-8");
    assert_eq!(ContentType::Css.header_value(), "text/css");
    assert_eq!(ContentType::JavaScript.header_value(), "application/javascript");
    assert_eq!(ContentType::Png.header_value(), "image/png");
}

#[test]
fn ok_response() {
    assert_eq!(
        Response::ok(ContentType::Json, "{}".to_string()),
        Response { status: 200, content_type: ContentType::Json, body: "{}".to_string() }
    );
}
