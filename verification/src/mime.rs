//! Media types of response bodies.

use vstd::prelude::*;
use vstd::string::*;

verus! {

/// The media types that a response body can be labelled with.
#[derive(Debug, Clone, Copy, PartialEq, Eq, Structural)]
pub enum MimeType {
    PlainText,
    JSON,
    HTML,
    OctetStream,
}

impl MimeType {
    /// The media type as the `Content-Type` header names it.
    pub open spec fn token(self) -> Seq<char> {
        match self {
            MimeType::PlainText => "text/plain"@,
            MimeType::JSON => "application/json"@,
            MimeType::HTML => "text/html"@,
            MimeType::OctetStream => "application/octet-stream"@,
        }
    }

    /// The media type's name.
    pub fn as_str(&self) -> (s: &'static str)
        ensures
            s@ == self.token(),
    {
        match self {
            MimeType::PlainText => "text/plain",
            MimeType::JSON => "application/json",
            MimeType::HTML => "text/html",
            MimeType::OctetStream => "application/octet-stream",
        }
    }

    /// The media type's name, as an owned string.
    pub fn to_string(&self) -> (s: String)
        ensures
            s@ == self.token(),
    {
        self.as_str().to_owned()
    }
}

} // verus!
