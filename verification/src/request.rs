//! Requests as the parser hands them out.

use vstd::prelude::*;
use vstd::string::*;
use vstd::utf8::*;
use crate::encoding::HttpEncoding;
use crate::error::{ParseError, ParseErrorView};
use crate::header::{HeadersView, HttpHeaderCollection};
use crate::method::HttpMethod;
use crate::parser::{Parser, ParserState, ParserView};
use crate::text::utf8_text;
use crate::version::HttpVersion;

verus! {

/// A request: the request line, the headers, the encoding that was
/// negotiated and the body.
#[derive(Debug)]
pub struct HttpRequest {
    pub method: HttpMethod,
    /// The path as it was received: not decoded, not normalised.
    pub path: String,
    pub version: HttpVersion,
    pub headers: HttpHeaderCollection,
    /// The accepted encoding of lowest rank, if the client named any.
    pub encoding: Option<HttpEncoding>,
    /// The body, if the request declared a length.
    pub body: Option<Vec<u8>>,
}

/// The mathematical value of a request.
pub struct RequestView {
    pub method: HttpMethod,
    pub path: Seq<char>,
    pub version: HttpVersion,
    pub headers: HeadersView,
    pub encoding: Option<HttpEncoding>,
    pub body: Option<Seq<u8>>,
}

impl View for HttpRequest {
    type V = RequestView;

    open spec fn view(&self) -> RequestView {
        RequestView {
            method: self.method,
            path: self.path@,
            version: self.version,
            headers: self.headers@,
            encoding: self.encoding,
            body: match self.body {
                Some(body) => Some(body@),
                None => None,
            },
        }
    }
}

impl RequestView {
    /// Whether the request can be written as text: it can unless it has a
    /// body that is not UTF-8.
    pub open spec fn is_text(self) -> bool {
        match self.body {
            Some(body) => valid_utf8(body),
            None => true,
        }
    }

    /// The request on the wire: the request line, the header lines, an
    /// empty line and the body.
    pub open spec fn wire(self) -> Seq<char> {
        self.method.token() + seq![' '] + self.path + seq![' '] + self.version.token()
            + seq!['\r', '\n'] + self.headers.block() + seq!['\r', '\n'] + match self.body {
            Some(body) => decode_utf8(body),
            None => Seq::empty(),
        }
    }
}

impl HttpRequest {
    /// Reads a request from `stream`, the bytes that a connection delivers
    /// until it is closed. A stream that ends before the request is
    /// complete gives the error `Unreachable`.
    pub fn from_stream(stream: &[u8]) -> (r: Result<HttpRequest, ParseError>)
        ensures
            match ParserView::start().after_stream(stream@) {
                Ok(parsed) => if parsed.state == ParserState::Done {
                    r matches Ok(request) && request@ == parsed.request()
                } else {
                    r matches Err(e) && e@ == ParseErrorView::Unreachable
                },
                Err(error) => r matches Err(e) && e@ == error,
            },
    {
        let parser = Parser::new();
        match parser.parse(stream) {
            Ok(parsed) => match parsed.get_request() {
                Ok(request) => Ok(request),
                Err(_) => Err(ParseError::Unreachable),
            },
            Err(error) => Err(error),
        }
    }

    /// The request on the wire, or nothing when its body is not UTF-8.
    pub fn to_string(&self) -> (r: Option<String>)
        ensures
            self@.is_text() ==> (r matches Some(s) && s@ == self@.wire()),
            !self@.is_text() ==> r is None,
    {
        proof {
            reveal_strlit(" ");
            reveal_strlit("\r\n");
        }
        let mut s = self.method.to_string();
        s.append(" ");
        s.append(self.path.as_str());
        s.append(" ");
        s.append(self.version.as_str());
        s.append("\r\n");
        let headers = self.headers.to_string();
        s.append(headers.as_str());
        s.append("\r\n");
        match &self.body {
            Some(body) => match utf8_text(body.as_slice()) {
                Some(text) => {
                    s.append(text);
                    assert(s@ =~= self@.wire());
                    Some(s)
                },
                None => None,
            },
            None => {
                assert(s@ =~= self@.wire());
                Some(s)
            },
        }
    }
}

} // verus!
