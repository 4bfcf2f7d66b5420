//! The endpoints: which response, or which file operation, a request leads to.

use vstd::prelude::*;
use vstd::string::*;
use vstd::utf8::*;
use crate::error::{HttpError, HttpErrorView, ParseError, ParseErrorView};
use crate::method::HttpMethod;
use crate::mime::MimeType;
use crate::request::{HttpRequest, RequestView};
use crate::response::{BuilderView, HttpResponse, HttpResponseBuilder, ResponseView};
use crate::status::HttpStatus;
use crate::text::{chars_of, has_prefix, run_end, scan, starts_with, str_eq, utf8_text, CharClass};

verus! {

/// What is to be done for a request.
#[derive(Debug)]
pub enum RouteAction {
    /// Answer with this response.
    Respond(HttpResponse),
    /// Read the file of this name and answer with `file_read_response`.
    ReadFile(String),
    /// Write the content, the second field, to the file of this name, the
    /// first, and answer with `file_write_response`.
    WriteFile(String, String),
}

/// The mathematical value of a `RouteAction`.
pub enum RouteActionView {
    Respond(ResponseView),
    ReadFile(Seq<char>),
    WriteFile(Seq<char>, Seq<char>),
}

impl View for RouteAction {
    type V = RouteActionView;

    open spec fn view(&self) -> RouteActionView {
        match self {
            RouteAction::Respond(response) => RouteActionView::Respond(response@),
            RouteAction::ReadFile(name) => RouteActionView::ReadFile(name@),
            RouteAction::WriteFile(name, content) => RouteActionView::WriteFile(name@, content@),
        }
    }
}

/// Why a file could not be read or written.
#[derive(Debug, Clone, Copy, PartialEq, Eq, Structural)]
pub enum FileFailure {
    /// There is no such file.
    NotFound,
    /// The file may not be accessed.
    PermissionDenied,
    /// Anything else.
    Other,
}

/// The second of the segments of `path` that are not empty, or the empty
/// text when there are fewer: in `/files/name` it is `name`.
pub open spec fn second_segment(path: Seq<char>) -> Seq<char> {
    let first_from = run_end(path, 0, CharClass::Slash);
    let first_to = run_end(path, first_from, CharClass::Segment);
    let from = run_end(path, first_to, CharClass::Slash);
    let to = run_end(path, from, CharClass::Segment);
    path.subrange(from, to)
}

/// `Ok` when `method` is among `accepted`, and otherwise the error that
/// lists the accepted methods.
pub open spec fn method_checked(method: HttpMethod, accepted: Seq<HttpMethod>) -> Result<
    (),
    HttpErrorView,
> {
    if accepted.contains(method) {
        Ok(())
    } else {
        Err(HttpErrorView::MethodNotAllowed(accepted))
    }
}

/// The response with this body as plain text, or the bare `200 OK` when
/// there is no body.
pub open spec fn text_response(body: Option<Seq<char>>) -> ResponseView {
    match body {
        Some(text) => BuilderView::empty().with_body(text, MimeType::PlainText, None).response(),
        None => BuilderView::empty().response(),
    }
}

/// What is to be done for `request`.
///
/// - `/` answers `200 OK` to `GET`.
/// - `/user-agent` answers `GET` with the value of the header `User-Agent`
///   as plain text, and with the bare `200 OK` when there is none.
/// - A path that begins with `/echo/` answers `GET` with its second segment
///   as plain text.
/// - A path that begins with `/files/` names a file by its second segment:
///   `GET` reads it, `POST` writes the body to it. A `POST` without body is
///   a bad request, one whose body is not UTF-8 an internal error.
/// - Nothing is served under any other path.
///
/// The method is checked before anything is said about a file.
pub open spec fn routed(request: RequestView) -> Result<RouteActionView, HttpErrorView> {
    let get_only = method_checked(request.method, seq![HttpMethod::GET]);
    if request.path == "/"@ {
        match get_only {
            Err(error) => Err(error),
            Ok(_) => Ok(RouteActionView::Respond(text_response(None))),
        }
    } else if request.path == "/user-agent"@ {
        match get_only {
            Err(error) => Err(error),
            Ok(_) => Ok(
                RouteActionView::Respond(text_response(request.headers.get("User-Agent"@))),
            ),
        }
    } else if has_prefix(request.path, "/echo/"@) {
        match get_only {
            Err(error) => Err(error),
            Ok(_) => Ok(
                RouteActionView::Respond(text_response(Some(second_segment(request.path)))),
            ),
        }
    } else if has_prefix(request.path, "/files/"@) {
        match request.method {
            HttpMethod::GET => Ok(RouteActionView::ReadFile(second_segment(request.path))),
            HttpMethod::POST => match request.body {
                None => Err(HttpErrorView::BadRequest(ParseErrorView::MalformedRequest)),
                Some(body) => if valid_utf8(body) {
                    Ok(
                        RouteActionView::WriteFile(
                            second_segment(request.path),
                            decode_utf8(body),
                        ),
                    )
                } else {
                    Err(HttpErrorView::InternalError)
                },
            },
            _ => Err(
                HttpErrorView::MethodNotAllowed(seq![HttpMethod::GET, HttpMethod::POST]),
            ),
        }
    } else {
        Err(HttpErrorView::NotFound(request.path))
    }
}

/// What reading the file `name` leads to: its content as a byte stream,
/// or the error that tells why there is none.
pub open spec fn file_read(name: Seq<char>, outcome: Result<Seq<char>, FileFailure>) -> Result<
    ResponseView,
    HttpErrorView,
> {
    match outcome {
        Ok(content) => Ok(
            BuilderView::empty().with_body(content, MimeType::OctetStream, None).response(),
        ),
        Err(FileFailure::NotFound) => Err(HttpErrorView::NotFound(name)),
        Err(FileFailure::PermissionDenied) => Err(HttpErrorView::Forbidden),
        Err(FileFailure::Other) => Err(HttpErrorView::InternalError),
    }
}

/// What writing a file leads to: `201 Created`, or the error that tells
/// why it was not written.
pub open spec fn file_written(outcome: Result<(), FileFailure>) -> Result<
    ResponseView,
    HttpErrorView,
> {
    match outcome {
        Ok(_) => Ok(BuilderView::empty().with_status(HttpStatus::Created).response()),
        Err(FileFailure::PermissionDenied) => Err(HttpErrorView::Forbidden),
        Err(_) => Err(HttpErrorView::InternalError),
    }
}

/// No file is touched for a method that is not allowed: a file is read
/// for `GET` only and written for `POST` only.
pub proof fn lemma_file_actions_follow_the_method(request: RequestView)
    ensures
        routed(request) matches Ok(RouteActionView::ReadFile(_)) ==> request.method
            == HttpMethod::GET,
        routed(request) matches Ok(RouteActionView::WriteFile(_, _)) ==> request.method
            == HttpMethod::POST,
{
}

/// Every request gets an answer with a status that tells what happened: a
/// path that is not served gives `404`, a method that is not allowed `405`
/// with the list of those that are, and a request that could not be read `400`.
pub proof fn lemma_errors_keep_their_status(error: HttpErrorView)
    ensures
        error is NotFound ==> error.response().status == HttpStatus::NotFound,
        error is BadRequest ==> error.response().status == HttpStatus::BadRequest,
        error matches HttpErrorView::MethodNotAllowed(methods) ==> error.response().status
            == HttpStatus::MethodNotAllowed && error.response().headers.get("Allowed"@) == Some(
            crate::error::joined_methods(methods),
        ),
        error.response().body.len() == 0,
{
}

/// Checks that the method of `request` is among `accepted`.
pub fn assert_method(request: &HttpRequest, accepted: Vec<HttpMethod>) -> (r: Result<
    (),
    HttpError,
>)
    ensures
        match method_checked(request.method, accepted@) {
            Ok(_) => r is Ok,
            Err(error) => r matches Err(e) && e@ == error,
        },
{
    let mut i: usize = 0;
    while i < accepted.len()
        invariant
            i <= accepted.len(),
            forall|j: int| 0 <= j < i ==> accepted@[j] != request.method,
        decreases accepted.len() - i,
    {
        if accepted[i] == request.method {
            return Ok(());
        }
        i += 1;
    }
    Err(HttpError::MethodNotAllowed(accepted))
}

/// The second segment of `path`.
pub fn path_parameter(path: &str) -> (segment: String)
    ensures
        segment@ == second_segment(path@),
{
    let chars = chars_of(path);
    let first_from = scan(&chars, 0, CharClass::Slash);
    let first_to = scan(&chars, first_from, CharClass::Segment);
    let from = scan(&chars, first_to, CharClass::Slash);
    let to = scan(&chars, from, CharClass::Segment);
    path.substring_char(from, to).to_owned()
}

fn get_only() -> (accepted: Vec<HttpMethod>)
    ensures
        accepted@ == seq![HttpMethod::GET],
{
    let mut accepted: Vec<HttpMethod> = Vec::new();
    accepted.push(HttpMethod::GET);
    assert(accepted@ =~= seq![HttpMethod::GET]);
    accepted
}

fn get_and_post() -> (accepted: Vec<HttpMethod>)
    ensures
        accepted@ == seq![HttpMethod::GET, HttpMethod::POST],
{
    let mut accepted: Vec<HttpMethod> = Vec::new();
    accepted.push(HttpMethod::GET);
    accepted.push(HttpMethod::POST);
    assert(accepted@ =~= seq![HttpMethod::GET, HttpMethod::POST]);
    accepted
}

/// Decides what is to be done for `request`.
pub fn route(request: HttpRequest) -> (r: Result<RouteAction, HttpError>)
    ensures
        match routed(request@) {
            Ok(action) => r matches Ok(a) && a@ == action,
            Err(error) => r matches Err(e) && e@ == error,
        },
{
    let path = request.path.as_str();
    if str_eq(path, "/") {
        match assert_method(&request, get_only()) {
            Err(error) => Err(error),
            Ok(()) => Ok(RouteAction::Respond(HttpResponseBuilder::new().to_response())),
        }
    } else if str_eq(path, "/user-agent") {
        match assert_method(&request, get_only()) {
            Err(error) => Err(error),
            Ok(()) => {
                let mut builder = HttpResponseBuilder::new();
                if let Some(user_agent) = request.headers.get_value(&"User-Agent".to_owned()) {
                    builder = builder.with_body(user_agent, MimeType::PlainText, None);
                }
                Ok(RouteAction::Respond(builder.to_response()))
            },
        }
    } else if starts_with(path, "/echo/") {
        match assert_method(&request, get_only()) {
            Err(error) => Err(error),
            Ok(()) => Ok(
                RouteAction::Respond(
                    HttpResponseBuilder::new().with_body(
                        path_parameter(path),
                        MimeType::PlainText,
                        None,
                    ).to_response(),
                ),
            ),
        }
    } else if starts_with(path, "/files/") {
        match request.method {
            HttpMethod::GET => Ok(RouteAction::ReadFile(path_parameter(path))),
            HttpMethod::POST => match &request.body {
                None => Err(HttpError::BadRequest(ParseError::MalformedRequest)),
                Some(body) => match utf8_text(body.as_slice()) {
                    Some(content) => Ok(
                        RouteAction::WriteFile(path_parameter(path), content.to_owned()),
                    ),
                    None => Err(HttpError::InternalError),
                },
            },
            _ => Err(HttpError::MethodNotAllowed(get_and_post())),
        }
    } else {
        Err(HttpError::NotFound(path.to_owned()))
    }
}

/// The answer to a `GET` under `/files/`, once the file `name` was read or
/// could not be read.
pub fn file_read_response(name: &str, outcome: Result<String, FileFailure>) -> (r: Result<
    HttpResponse,
    HttpError,
>)
    ensures
        match file_read(
            name@,
            match outcome {
                Ok(content) => Ok(content@),
                Err(failure) => Err(failure),
            },
        ) {
            Ok(response) => r matches Ok(x) && x@ == response,
            Err(error) => r matches Err(e) && e@ == error,
        },
{
    match outcome {
        Ok(content) => Ok(
            HttpResponseBuilder::new().with_body(content, MimeType::OctetStream, None).to_response(),
        ),
        Err(FileFailure::NotFound) => Err(HttpError::NotFound(name.to_owned())),
        Err(FileFailure::PermissionDenied) => Err(HttpError::Forbidden),
        Err(FileFailure::Other) => Err(HttpError::InternalError),
    }
}

/// The answer to a `POST` under `/files/`, once the file was written or
/// could not be written.
pub fn file_write_response(outcome: Result<(), FileFailure>) -> (r: Result<
    HttpResponse,
    HttpError,
>)
    ensures
        match file_written(outcome) {
            Ok(response) => r matches Ok(x) && x@ == response,
            Err(error) => r matches Err(e) && e@ == error,
        },
{
    match outcome {
        Ok(()) => Ok(HttpResponseBuilder::new().with_status(HttpStatus::Created).to_response()),
        Err(FileFailure::PermissionDenied) => Err(HttpError::Forbidden),
        Err(_) => Err(HttpError::InternalError),
    }
}

/// The bytes that answer a request: the response on the wire, or the
/// response that reports the error.
pub fn render(outcome: &Result<HttpResponse, HttpError>) -> (wire: String)
    ensures
        wire@ == match outcome {
            Ok(response) => response@.wire(),
            Err(error) => error@.response().wire(),
        },
{
    match outcome {
        Ok(response) => response.to_string(),
        Err(error) => error.to_response().to_string(),
    }
}

} // verus!
