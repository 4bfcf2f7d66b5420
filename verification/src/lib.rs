//! HTTP/1.1 message model, incremental request parser and response builder.
//!
//! A byte stream is read by [`Parser`] into an [`HttpRequest`], [`route`]
//! decides what is to be done for it, and an [`HttpResponse`], built by
//! [`HttpResponseBuilder`] or from an [`HttpError`], is written back as text.

pub mod encoding;
pub mod error;
pub mod header;
pub mod method;
pub mod mime;
pub mod parser;
pub mod request;
pub mod response;
pub mod router;
pub mod status;
pub mod text;
pub mod version;

pub use crate::encoding::{EncodingSet, HttpEncoding};
pub use crate::error::{HttpError, ParseError};
pub use crate::header::{HttpHeader, HttpHeaderCollection};
pub use crate::method::HttpMethod;
pub use crate::mime::MimeType;
pub use crate::parser::{Parser, ParserState, Unparsed};
pub use crate::request::HttpRequest;
pub use crate::response::{HttpResponse, HttpResponseBuilder};
pub use crate::router::{
    assert_method, file_read_response, file_write_response, render, route, FileFailure,
    RouteAction,
};
pub use crate::status::HttpStatus;
pub use crate::version::HttpVersion;
