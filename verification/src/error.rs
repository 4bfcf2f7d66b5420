//! The ways in which reading a request can fail.

use vstd::prelude::*;
use vstd::string::*;
use vstd::std_specs::convert::FromSpecImpl;
use crate::header::{HeadersView, HttpHeader};
use crate::method::HttpMethod;
use crate::response::{HttpResponse, HttpResponseBuilder, ResponseView};
use crate::status::HttpStatus;
use crate::version::HttpVersion;

verus! {

/// Why a byte stream could not be read as a request.
#[derive(Debug)]
pub enum ParseError {
    /// The first token of the request line names no known method.
    UnknownMethod(String),
    /// The third token of the request line names no known version.
    UnhandledVersion(String),
    /// The request line holds no token at all.
    MissingMethod,
    /// The request line ends after the path.
    MissingVersion,
    /// The request line ends after the method.
    MissingPath,
    /// A header line, a length or the body is not what the grammar asks for.
    MalformedRequest,
    /// The parser was driven in a state that takes no input.
    Unreachable,
}

/// The mathematical value of a `ParseError`.
pub enum ParseErrorView {
    UnknownMethod(Seq<char>),
    UnhandledVersion(Seq<char>),
    MissingMethod,
    MissingVersion,
    MissingPath,
    MalformedRequest,
    Unreachable,
}

impl View for ParseError {
    type V = ParseErrorView;

    open spec fn view(&self) -> ParseErrorView {
        match self {
            ParseError::UnknownMethod(token) => ParseErrorView::UnknownMethod(token@),
            ParseError::UnhandledVersion(token) => ParseErrorView::UnhandledVersion(token@),
            ParseError::MissingMethod => ParseErrorView::MissingMethod,
            ParseError::MissingVersion => ParseErrorView::MissingVersion,
            ParseError::MissingPath => ParseErrorView::MissingPath,
            ParseError::MalformedRequest => ParseErrorView::MalformedRequest,
            ParseError::Unreachable => ParseErrorView::Unreachable,
        }
    }
}

/// Why a request was not served.
#[derive(Debug)]
pub enum HttpError {
    /// Nothing is served under the path.
    NotFound(String),
    /// The path is served, but only for the methods listed.
    MethodNotAllowed(Vec<HttpMethod>),
    /// The request could not be read.
    BadRequest(ParseError),
    /// The server failed.
    InternalError,
    /// The client has to authenticate first.
    Unauthorized,
    /// The client may not do this.
    Forbidden,
}

/// The mathematical value of an `HttpError`.
pub enum HttpErrorView {
    NotFound(Seq<char>),
    MethodNotAllowed(Seq<HttpMethod>),
    BadRequest(ParseErrorView),
    InternalError,
    Unauthorized,
    Forbidden,
}

impl View for HttpError {
    type V = HttpErrorView;

    open spec fn view(&self) -> HttpErrorView {
        match self {
            HttpError::NotFound(path) => HttpErrorView::NotFound(path@),
            HttpError::MethodNotAllowed(methods) => HttpErrorView::MethodNotAllowed(methods@),
            HttpError::BadRequest(error) => HttpErrorView::BadRequest(error@),
            HttpError::InternalError => HttpErrorView::InternalError,
            HttpError::Unauthorized => HttpErrorView::Unauthorized,
            HttpError::Forbidden => HttpErrorView::Forbidden,
        }
    }
}

/// The tokens of `methods`, with a comma between each two.
pub open spec fn joined_methods(methods: Seq<HttpMethod>) -> Seq<char>
    decreases methods.len(),
{
    if methods.len() == 0 {
        Seq::empty()
    } else if methods.len() == 1 {
        methods[0].token()
    } else {
        joined_methods(methods.drop_last()) + seq![','] + methods.last().token()
    }
}

impl HttpErrorView {
    /// The status that reports the error.
    pub open spec fn status(self) -> HttpStatus {
        match self {
            HttpErrorView::NotFound(_) => HttpStatus::NotFound,
            HttpErrorView::MethodNotAllowed(_) => HttpStatus::MethodNotAllowed,
            HttpErrorView::BadRequest(_) => HttpStatus::BadRequest,
            HttpErrorView::InternalError => HttpStatus::InternalError,
            HttpErrorView::Unauthorized => HttpStatus::Unauthorized,
            HttpErrorView::Forbidden => HttpStatus::Forbidden,
        }
    }

    /// The headers that go with the status: the allowed methods for a
    /// method that is not allowed, the scheme to authenticate with for a
    /// client that has not, and none otherwise.
    pub open spec fn headers(self) -> HeadersView {
        match self {
            HttpErrorView::MethodNotAllowed(methods) => HeadersView::empty().insert(
                "Allowed"@,
                joined_methods(methods),
            ),
            HttpErrorView::Unauthorized => HeadersView::empty().insert(
                "WWW-Authenticate"@,
                "Basic"@,
            ),
            _ => HeadersView::empty(),
        }
    }

    /// The response that reports the error: version 1.1, the status and
    /// headers of the error, and an empty body.
    pub open spec fn response(self) -> ResponseView {
        ResponseView {
            version: HttpVersion::V11,
            status: self.status(),
            headers: self.headers(),
            body: Seq::empty(),
        }
    }
}

/// Writes the tokens of `methods` with a comma between each two.
pub fn join_methods(methods: &Vec<HttpMethod>) -> (s: String)
    ensures
        s@ == joined_methods(methods@),
{
    let mut s = String::new();
    let mut i: usize = 0;
    while i < methods.len()
        invariant
            i <= methods.len(),
            s@ == joined_methods(methods@.take(i as int)),
        decreases methods.len() - i,
    {
        proof {
            reveal_strlit(",");
            assert(methods@.take(i + 1).drop_last() =~= methods@.take(i as int));
            assert(methods@.take(i + 1).last() == methods@[i as int]);
            assert(methods@.take(i + 1)[0] == methods@[0]);
        }
        if i > 0 {
            s.append(",");
        }
        s.append(methods[i].as_str());
        assert(s@ =~= joined_methods(methods@.take(i + 1)));
        i += 1;
    }
    proof {
        assert(methods@.take(i as int) =~= methods@);
    }
    s
}

impl HttpError {
    /// The response that reports the error.
    pub fn to_response(&self) -> (response: HttpResponse)
        ensures
            response@ == self@.response(),
    {
        match self {
            HttpError::NotFound(_) => HttpResponse::new(HttpVersion::V11, HttpStatus::NotFound),
            HttpError::MethodNotAllowed(methods) => {
                let allowed_methods = join_methods(methods);
                let mut headers: Vec<HttpHeader> = Vec::new();
                headers.push(HttpHeader::new("Allowed".to_owned(), allowed_methods));
                proof {
                    let pairs = crate::header::pairs_of(headers@);
                    assert(pairs.drop_last() =~= Seq::empty());
                    assert(HeadersView::empty().insert_all(pairs.drop_last())
                        == HeadersView::empty());
                }
                HttpResponse::with_headers(HttpVersion::V11, HttpStatus::MethodNotAllowed, headers)
            },
            HttpError::BadRequest(_) => HttpResponse::new(HttpVersion::V11, HttpStatus::BadRequest),
            HttpError::InternalError => HttpResponseBuilder::new().with_status(
                HttpStatus::InternalError,
            ).to_response(),
            HttpError::Unauthorized => HttpResponseBuilder::new().with_status(
                HttpStatus::Unauthorized,
            ).add_header("WWW-Authenticate".to_owned(), "Basic".to_owned()).to_response(),
            HttpError::Forbidden => HttpResponseBuilder::new().with_status(
                HttpStatus::Forbidden,
            ).to_response(),
        }
    }
}

impl From<ParseError> for HttpError {
    /// A request that could not be read is a bad request.
    fn from(value: ParseError) -> (error: HttpError) {
        HttpError::BadRequest(value)
    }
}

impl FromSpecImpl<ParseError> for HttpError {
    open spec fn obeys_from_spec() -> bool {
        true
    }

    open spec fn from_spec(value: ParseError) -> HttpError {
        HttpError::BadRequest(value)
    }
}

} // verus!
