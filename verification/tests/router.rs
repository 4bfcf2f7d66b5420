use http_server::{
    assert_method, file_read_response, file_write_response, render, route, FileFailure,
    HttpError, HttpHeaderCollection, HttpMethod, HttpRequest, HttpResponse, HttpStatus,
    HttpVersion, ParseError, RouteAction,
};

fn text(s: &str) -> String {
    s.to_string()
}

fn request(method: HttpMethod, path: &str, body: Option<&[u8]>) -> HttpRequest {
    HttpRequest {
        method,
        path: path.to_string(),
        version: HttpVersion::V11,
        headers: HttpHeaderCollection::new(),
        encoding: None,
        body: body.map(|b| b.to_vec()),
    }
}

fn response_of(action: Result<RouteAction, HttpError>) -> HttpResponse {
    match action {
        Ok(RouteAction::Respond(response)) => response,
        other => panic!("unexpected: {:?}", other),
    }
}

#[test]
fn root_answers_get_with_200() {
    let response = response_of(route(request(HttpMethod::GET, "/", None)));
    assert_eq!(response.to_string(), "HTTP/1.1 200 OK\r\n\r\n");
}

#[test]
fn root_allows_get_only() {
    match route(request(HttpMethod::POST, "/", None)) {
        Err(HttpError::MethodNotAllowed(methods)) => assert_eq!(methods, vec![HttpMethod::GET]),
        other => panic!("unexpected: {:?}", other),
    }
}

#[test]
fn user_agent_is_echoed() {
    let mut r = request(HttpMethod::GET, "/user-agent", None);
    r.headers.add_header(text("User-Agent"), text("curl/8.0"));
    let response = response_of(route(r));
    assert_eq!(
        response.to_string(),
        "HTTP/1.1 200 OK\r\nContent-Type: text/plain\r\nContent-Length: 8\r\n\r\ncurl/8.0"
    );
}

#[test]
fn user_agent_header_is_looked_up_by_its_exact_name() {
    let mut r = request(HttpMethod::GET, "/user-agent", None);
    r.headers.add_header(text("user-agent"), text("curl/8.0"));
    let response = response_of(route(r));
    assert_eq!(response.to_string(), "HTTP/1.1 200 OK\r\n\r\n");
}

#[test]
fn user_agent_allows_get_only() {
    let r = route(request(HttpMethod::DELETE, "/user-agent", None));
    assert!(matches!(r, Err(HttpError::MethodNotAllowed(_))));
}

#[test]
fn echo_answers_with_the_second_segment() {
    let response = response_of(route(request(HttpMethod::GET, "/echo/abc", None)));
    assert_eq!(
        response.to_string(),
        "HTTP/1.1 200 OK\r\nContent-Type: text/plain\r\nContent-Length: 3\r\n\r\nabc"
    );
    let response = response_of(route(request(HttpMethod::GET, "/echo/abc/def", None)));
    assert_eq!(response.body(), "abc");
    let response = response_of(route(request(HttpMethod::GET, "/echo//x", None)));
    assert_eq!(response.body(), "x");
}

#[test]
fn echo_without_parameter_answers_with_an_empty_body() {
    let response = response_of(route(request(HttpMethod::GET, "/echo/", None)));
    assert_eq!(response.body(), "");
    assert_eq!(response.headers().get_value(&text("Content-Length")), Some(text("0")));
}

#[test]
fn echo_allows_get_only() {
    match route(request(HttpMethod::PUT, "/echo/abc", None)) {
        Err(HttpError::MethodNotAllowed(methods)) => assert_eq!(methods, vec![HttpMethod::GET]),
        other => panic!("unexpected: {:?}", other),
    }
}

#[test]
fn echo_needs_the_slash_behind_it() {
    match route(request(HttpMethod::GET, "/echo", None)) {
        Err(HttpError::NotFound(path)) => assert_eq!(path, "/echo"),
        other => panic!("unexpected: {:?}", other),
    }
}

#[test]
fn get_under_files_reads_the_file() {
    match route(request(HttpMethod::GET, "/files/notes.txt", None)) {
        Ok(RouteAction::ReadFile(name)) => assert_eq!(name, "notes.txt"),
        other => panic!("unexpected: {:?}", other),
    }
}

#[test]
fn post_under_files_writes_the_body() {
    match route(request(HttpMethod::POST, "/files/notes.txt", Some(b"some text"))) {
        Ok(RouteAction::WriteFile(name, content)) => {
            assert_eq!(name, "notes.txt");
            assert_eq!(content, "some text");
        },
        other => panic!("unexpected: {:?}", other),
    }
}

#[test]
fn post_under_files_without_body_is_a_bad_request() {
    let r = route(request(HttpMethod::POST, "/files/notes.txt", None));
    assert!(matches!(r, Err(HttpError::BadRequest(ParseError::MalformedRequest))));
}

#[test]
fn post_under_files_with_a_body_that_is_not_utf8_is_an_internal_error() {
    let r = route(request(HttpMethod::POST, "/files/notes.txt", Some(b"\xff\xfe")));
    assert!(matches!(r, Err(HttpError::InternalError)));
}

#[test]
fn files_allow_get_and_post() {
    match route(request(HttpMethod::DELETE, "/files/notes.txt", Some(b"x"))) {
        Err(HttpError::MethodNotAllowed(methods)) => {
            assert_eq!(methods, vec![HttpMethod::GET, HttpMethod::POST])
        },
        other => panic!("unexpected: {:?}", other),
    }
}

#[test]
fn unknown_path_is_not_found() {
    match route(request(HttpMethod::GET, "/nowhere", None)) {
        Err(HttpError::NotFound(path)) => assert_eq!(path, "/nowhere"),
        other => panic!("unexpected: {:?}", other),
    }
    assert!(matches!(
        route(request(HttpMethod::GET, "", None)),
        Err(HttpError::NotFound(_))
    ));
    assert!(matches!(
        route(request(HttpMethod::POST, "/User-Agent", None)),
        Err(HttpError::NotFound(_))
    ));
}

#[test]
fn assert_method_accepts_listed_methods_only() {
    let r = request(HttpMethod::HEAD, "/", None);
    assert!(assert_method(&r, vec![HttpMethod::GET, HttpMethod::HEAD]).is_ok());
    match assert_method(&r, vec![HttpMethod::GET, HttpMethod::POST]) {
        Err(HttpError::MethodNotAllowed(methods)) => {
            assert_eq!(methods, vec![HttpMethod::GET, HttpMethod::POST])
        },
        other => panic!("unexpected: {:?}", other),
    }
    assert!(assert_method(&r, Vec::new()).is_err());
}

#[test]
fn file_content_is_served_as_a_byte_stream() {
    let response = file_read_response("a.txt", Ok(text("hello"))).unwrap();
    assert_eq!(
        response.to_string(),
        "HTTP/1.1 200 OK\r\nContent-Type: application/octet-stream\r\nContent-Length: 5\r\n\r\nhello"
    );
}

#[test]
fn read_failures_map_to_their_errors() {
    match file_read_response("a.txt", Err(FileFailure::NotFound)) {
        Err(HttpError::NotFound(name)) => assert_eq!(name, "a.txt"),
        other => panic!("unexpected: {:?}", other),
    }
    assert!(matches!(
        file_read_response("a.txt", Err(FileFailure::PermissionDenied)),
        Err(HttpError::Forbidden)
    ));
    assert!(matches!(
        file_read_response("a.txt", Err(FileFailure::Other)),
        Err(HttpError::InternalError)
    ));
}

#[test]
fn written_file_is_created() {
    let response = file_write_response(Ok(())).unwrap();
    assert_eq!(response.status(), HttpStatus::Created);
    assert_eq!(response.to_string(), "HTTP/1.1 201 Created\r\n\r\n");
}

#[test]
fn write_failures_map_to_their_errors() {
    assert!(matches!(
        file_write_response(Err(FileFailure::PermissionDenied)),
        Err(HttpError::Forbidden)
    ));
    assert!(matches!(
        file_write_response(Err(FileFailure::Other)),
        Err(HttpError::InternalError)
    ));
    assert!(matches!(
        file_write_response(Err(FileFailure::NotFound)),
        Err(HttpError::InternalError)
    ));
}

#[test]
fn outcome_is_rendered_as_wire_text() {
    let ok = Ok(HttpResponse::new(HttpVersion::V11, HttpStatus::OK));
    assert_eq!(render(&ok), "HTTP/1.1 200 OK\r\n\r\n");
    let err = Err(HttpError::MethodNotAllowed(vec![HttpMethod::GET, HttpMethod::POST]));
    assert_eq!(render(&err), "HTTP/1.1 405 Method Not Allowed\r\nAllowed: GET,POST\r\n\r\n");
    let err = Err(HttpError::NotFound(text("/x")));
    assert_eq!(render(&err), "HTTP/1.1 404 Not Found\r\n\r\n");
}

#[test]
fn parsed_request_is_routed() {
    let r = HttpRequest::from_stream(
        b"GET /user-agent HTTP/1.1\r\nUser-Agent: test/1.0\r\nAccept-Encoding: gzip\r\n\r\n",
    )
    .unwrap();
    let response = response_of(route(r));
    assert_eq!(response.body(), "test/1.0");
    assert_eq!(response.headers().get_value(&text("Content-Encoding")), None);
}
