//! Protocol versions and their wire tokens.

use vstd::prelude::*;
use vstd::string::*;
use crate::error::{ParseError, ParseErrorView};
use crate::text::str_eq;

verus! {

/// The protocol versions that a request line may name.
#[derive(Debug, Clone, Copy, PartialEq, Eq, Structural)]
pub enum HttpVersion {
    V10,
    V11,
    V20,
}

impl HttpVersion {
    /// The token that stands for the version on the wire.
    pub open spec fn token(self) -> Seq<char> {
        match self {
            HttpVersion::V10 => "HTTP/1.0"@,
            HttpVersion::V11 => "HTTP/1.1"@,
            HttpVersion::V20 => "HTTP/2.0"@,
        }
    }

    /// The version that a token names: the token is matched exactly.
    pub open spec fn from_token(token: Seq<char>) -> Option<HttpVersion> {
        if token == "HTTP/1.0"@ {
            Some(HttpVersion::V10)
        } else if token == "HTTP/1.1"@ {
            Some(HttpVersion::V11)
        } else if token == "HTTP/2.0"@ {
            Some(HttpVersion::V20)
        } else {
            None
        }
    }

    /// Reads a version from its token. Any other text is an unhandled
    /// version, and the error carries it.
    pub fn from_str(input: &str) -> (r: Result<HttpVersion, ParseError>)
        ensures
            match HttpVersion::from_token(input@) {
                Some(version) => r == Ok::<HttpVersion, ParseError>(version),
                None => r matches Err(e) && e@ == ParseErrorView::UnhandledVersion(input@),
            },
    {
        if str_eq(input, "HTTP/1.0") {
            Ok(HttpVersion::V10)
        } else if str_eq(input, "HTTP/1.1") {
            Ok(HttpVersion::V11)
        } else if str_eq(input, "HTTP/2.0") {
            Ok(HttpVersion::V20)
        } else {
            Err(ParseError::UnhandledVersion(input.to_owned()))
        }
    }

    /// The version's token.
    pub fn as_str(&self) -> (s: &'static str)
        ensures
            s@ == self.token(),
    {
        match self {
            HttpVersion::V10 => "HTTP/1.0",
            HttpVersion::V11 => "HTTP/1.1",
            HttpVersion::V20 => "HTTP/2.0",
        }
    }

    /// The version's token, as an owned string.
    pub fn to_string(&self) -> (s: String)
        ensures
            s@ == self.token(),
    {
        self.as_str().to_owned()
    }

    /// Every version is read back from its own token.
    pub proof fn lemma_round_trip(self)
        ensures
            HttpVersion::from_token(self.token()) == Some(self),
    {
        reveal_strlit("HTTP/1.0");
        reveal_strlit("HTTP/1.1");
        reveal_strlit("HTTP/2.0");
        assert("HTTP/1.0"@[7] == '0' && "HTTP/1.1"@[7] == '1');
        assert("HTTP/1.0"@[5] == '1' && "HTTP/2.0"@[5] == '2');
        assert("HTTP/1.1"@[5] == '1');
    }

    /// A token names at most one version, and that version's token is the token.
    pub proof fn lemma_token_of_parsed(token: Seq<char>)
        ensures
            HttpVersion::from_token(token) matches Some(version) ==> version.token() == token,
    {
    }
}

} // verus!
