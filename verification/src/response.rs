//! Responses, their wire form and the builder that derives the framing headers.

use vstd::prelude::*;
use vstd::string::*;
use vstd::utf8::*;
use vstd::std_specs::convert::FromSpecImpl;
use crate::encoding::HttpEncoding;
use crate::error::HttpError;
use crate::header::{pairs_of, HeadersView, HttpHeader, HttpHeaderCollection};
use crate::mime::MimeType;
use crate::status::HttpStatus;
use crate::text::{byte_len, decimal, decimal_string};
use crate::version::HttpVersion;

verus! {

/// The mathematical value of a response.
pub struct ResponseView {
    pub version: HttpVersion,
    pub status: HttpStatus,
    pub headers: HeadersView,
    pub body: Seq<char>,
}

impl ResponseView {
    /// The response on the wire: the status line, the header lines, an
    /// empty line and the body.
    pub open spec fn wire(self) -> Seq<char> {
        self.version.token() + seq![' '] + self.status.token() + seq!['\r', '\n']
            + self.headers.block() + seq!['\r', '\n'] + self.body
    }

    /// A response with a status and nothing else.
    pub open spec fn bare(version: HttpVersion, status: HttpStatus) -> ResponseView {
        ResponseView { version, status, headers: HeadersView::empty(), body: Seq::empty() }
    }
}

/// A response: version, status, headers and body.
#[derive(Debug)]
pub struct HttpResponse {
    version: HttpVersion,
    status: HttpStatus,
    headers: HttpHeaderCollection,
    body: String,
}

impl View for HttpResponse {
    type V = ResponseView;

    closed spec fn view(&self) -> ResponseView {
        ResponseView {
            version: self.version,
            status: self.status,
            headers: self.headers@,
            body: self.body@,
        }
    }
}

impl HttpResponse {
    /// A response with the given version and status, no header and an empty body.
    pub fn new(version: HttpVersion, status: HttpStatus) -> (response: HttpResponse)
        ensures
            response@ == ResponseView::bare(version, status),
    {
        HttpResponse { version, status, body: String::new(), headers: HttpHeaderCollection::new() }
    }

    /// A response with the given version, status and headers, and an empty
    /// body. Of two headers with the same name the later one stays.
    pub fn with_headers(version: HttpVersion, status: HttpStatus, headers: Vec<HttpHeader>) -> (response:
        HttpResponse)
        ensures
            response@ == (ResponseView {
                headers: HeadersView::empty().insert_all(pairs_of(headers@)),
                ..ResponseView::bare(version, status)
            }),
    {
        let headers = HttpHeaderCollection::from_vector(headers);
        HttpResponse { version, status, headers, body: String::new() }
    }

    /// The protocol version.
    pub fn version(&self) -> (version: HttpVersion)
        ensures
            version == self@.version,
    {
        self.version
    }

    /// The status.
    pub fn status(&self) -> (status: HttpStatus)
        ensures
            status == self@.status,
    {
        self.status
    }

    /// The headers.
    pub fn headers(&self) -> (headers: &HttpHeaderCollection)
        ensures
            headers@ == self@.headers,
    {
        &self.headers
    }

    /// The body.
    pub fn body(&self) -> (body: &String)
        ensures
            body@ == self@.body,
    {
        &self.body
    }

    /// The response on the wire.
    pub fn to_string(&self) -> (s: String)
        ensures
            s@ == self@.wire(),
    {
        proof {
            reveal_strlit(" ");
            reveal_strlit("\r\n");
        }
        let mut s = self.version.to_string();
        s.append(" ");
        let status = self.status.to_string();
        s.append(status.as_str());
        s.append("\r\n");
        let headers = self.headers.to_string();
        s.append(headers.as_str());
        s.append("\r\n");
        s.append(self.body.as_str());
        assert(s@ =~= self@.wire());
        s
    }
}

impl From<HttpError> for HttpResponse {
    /// The response that reports the error.
    fn from(value: HttpError) -> (response: HttpResponse)
        ensures
            response@ == value@.response(),
    {
        value.to_response()
    }
}

/// The conversion is described by the `ensures` of `from`, over views: two
/// responses with the same view need not be the same value, so no spec
/// function names the result.
impl FromSpecImpl<HttpError> for HttpResponse {
    open spec fn obeys_from_spec() -> bool {
        false
    }

    open spec fn from_spec(value: HttpError) -> HttpResponse {
        arbitrary()
    }
}

/// The mathematical value of a response builder: what was set so far.
pub struct BuilderView {
    pub version: Option<HttpVersion>,
    pub status: Option<HttpStatus>,
    pub headers: HeadersView,
    pub body: Option<Seq<char>>,
}

impl BuilderView {
    /// The builder on which nothing was set.
    pub open spec fn empty() -> BuilderView {
        BuilderView { version: None, status: None, headers: HeadersView::empty(), body: None }
    }

    /// The builder after the status was set.
    pub open spec fn with_status(self, status: HttpStatus) -> BuilderView {
        BuilderView { status: Some(status), ..self }
    }

    /// The builder after a header was added.
    pub open spec fn add_header(self, name: Seq<char>, value: Seq<char>) -> BuilderView {
        BuilderView { headers: self.headers.insert(name, value), ..self }
    }

    /// The framing headers that go with a body: its media type, its length
    /// in bytes and, unless there is none or it is the unsupported one, its
    /// encoding.
    pub open spec fn framed(
        headers: HeadersView,
        body: Seq<char>,
        mime_type: MimeType,
        encoding: Option<HttpEncoding>,
    ) -> HeadersView {
        let typed = headers.insert("Content-Type"@, mime_type.token()).insert(
            "Content-Length"@,
            decimal(encode_utf8(body).len()),
        );
        match encoding {
            Some(e) => if e != HttpEncoding::Unsupported {
                typed.insert("Content-Encoding"@, e.token())
            } else {
                typed
            },
            None => typed,
        }
    }

    /// The builder after the body was set, with its framing headers.
    pub open spec fn with_body(
        self,
        body: Seq<char>,
        mime_type: MimeType,
        encoding: Option<HttpEncoding>,
    ) -> BuilderView {
        BuilderView {
            headers: BuilderView::framed(self.headers, body, mime_type, encoding),
            body: Some(body),
            ..self
        }
    }

    /// The response that the builder stands for: version 1.1, status 200
    /// and an empty body where none was set.
    pub open spec fn response(self) -> ResponseView {
        ResponseView {
            version: match self.version {
                Some(version) => version,
                None => HttpVersion::V11,
            },
            status: match self.status {
                Some(status) => status,
                None => HttpStatus::OK,
            },
            headers: self.headers,
            body: match self.body {
                Some(body) => body,
                None => Seq::empty(),
            },
        }
    }
}

impl BuilderView {
    /// A body brings its framing headers along: the media type and the
    /// length in bytes are there whatever the encoding.
    pub proof fn lemma_body_is_framed(
        self,
        body: Seq<char>,
        mime_type: MimeType,
        encoding: Option<HttpEncoding>,
    )
        ensures
            self.with_body(body, mime_type, encoding).response().headers.get("Content-Type"@)
                == Some(mime_type.token()),
            self.with_body(body, mime_type, encoding).response().headers.get("Content-Length"@)
                == Some(decimal(encode_utf8(body).len())),
            self.with_body(body, mime_type, encoding).response().headers.get(
                "Content-Encoding"@,
            ) == match encoding {
                Some(e) => if e != HttpEncoding::Unsupported {
                    Some(e.token())
                } else {
                    self.headers.get("Content-Encoding"@)
                },
                None => self.headers.get("Content-Encoding"@),
            },
            self.with_body(body, mime_type, encoding).response().body == body,
    {
        reveal_strlit("Content-Type");
        reveal_strlit("Content-Length");
        reveal_strlit("Content-Encoding");
        assert("Content-Type"@.len() == 12);
        assert("Content-Length"@.len() == 14);
        assert("Content-Encoding"@.len() == 16);
    }

    /// Without a body there are no framing headers: setting the status, or
    /// a header of another name, brings none.
    pub proof fn lemma_no_body_no_framing(status: HttpStatus, name: Seq<char>, value: Seq<char>)
        ensures
            BuilderView::empty().response().headers == HeadersView::empty(),
            BuilderView::empty().with_status(status).response().headers == HeadersView::empty(),
            name != "Content-Type"@ ==> BuilderView::empty().add_header(
                name,
                value,
            ).response().headers.get("Content-Type"@) is None,
            name != "Content-Length"@ ==> BuilderView::empty().add_header(
                name,
                value,
            ).response().headers.get("Content-Length"@) is None,
    {
    }
}

/// Collects the parts of a response and fills in what was left out.
#[derive(Debug)]
pub struct HttpResponseBuilder {
    version: Option<HttpVersion>,
    status: Option<HttpStatus>,
    headers: HttpHeaderCollection,
    body: Option<String>,
}

impl View for HttpResponseBuilder {
    type V = BuilderView;

    closed spec fn view(&self) -> BuilderView {
        BuilderView {
            version: self.version,
            status: self.status,
            headers: self.headers@,
            body: match self.body {
                Some(body) => Some(body@),
                None => None,
            },
        }
    }
}

impl HttpResponseBuilder {
    /// A builder on which nothing is set.
    pub fn new() -> (builder: HttpResponseBuilder)
        ensures
            builder@ == BuilderView::empty(),
    {
        HttpResponseBuilder {
            version: None,
            status: None,
            headers: HttpHeaderCollection::new(),
            body: None,
        }
    }

    /// Sets the status.
    pub fn with_status(self, status: HttpStatus) -> (builder: HttpResponseBuilder)
        ensures
            builder@ == self@.with_status(status),
    {
        let mut builder = self;
        builder.status = Some(status);
        builder
    }

    /// Sets the body, and with it the headers `Content-Type`,
    /// `Content-Length` (the length of the body in bytes) and, for an
    /// encoding other than the unsupported one, `Content-Encoding`.
    pub fn with_body(self, body: String, mime_type: MimeType, encoding: Option<HttpEncoding>) -> (builder:
        HttpResponseBuilder)
        ensures
            builder@ == self@.with_body(body@, mime_type, encoding),
    {
        let mut builder = self;
        builder.headers.add_header("Content-Type".to_owned(), mime_type.to_string());
        builder.headers.add_header(
            "Content-Length".to_owned(),
            decimal_string(byte_len(body.as_str())),
        );
        if let Some(encoding) = encoding {
            if encoding != HttpEncoding::Unsupported {
                builder.headers.add_header("Content-Encoding".to_owned(), encoding.to_string());
            }
        }
        builder.body = Some(body);
        builder
    }

    /// Adds a header.
    pub fn add_header(self, name: String, value: String) -> (builder: HttpResponseBuilder)
        ensures
            builder@ == self@.add_header(name@, value@),
    {
        let mut builder = self;
        builder.headers.add_header(name, value);
        builder
    }

    /// The response, with the defaults in place of what was not set.
    pub fn to_response(self) -> (response: HttpResponse)
        ensures
            response@ == self@.response(),
    {
        let version = match self.version {
            Some(version) => version,
            None => HttpVersion::V11,
        };
        let status = match self.status {
            Some(status) => status,
            None => HttpStatus::OK,
        };
        let body = match self.body {
            Some(body) => body,
            None => String::new(),
        };
        HttpResponse { version, status, headers: self.headers, body }
    }
}

} // verus!
