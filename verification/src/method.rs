//! Request methods and their wire tokens.

use vstd::prelude::*;
use vstd::string::*;
use crate::error::{ParseError, ParseErrorView};
use crate::text::str_eq;

verus! {

/// The request methods.
#[derive(Debug, Clone, Copy, PartialEq, Eq, Structural)]
pub enum HttpMethod {
    GET,
    POST,
    PUT,
    DELETE,
    OPTIONS,
    HEAD,
    CONNECT,
    PATCH,
    TRACE,
}

impl HttpMethod {
    /// The token that stands for the method on the wire.
    pub open spec fn token(self) -> Seq<char> {
        match self {
            HttpMethod::GET => "GET"@,
            HttpMethod::POST => "POST"@,
            HttpMethod::PUT => "PUT"@,
            HttpMethod::DELETE => "DELETE"@,
            HttpMethod::OPTIONS => "OPTIONS"@,
            HttpMethod::HEAD => "HEAD"@,
            HttpMethod::CONNECT => "CONNECT"@,
            HttpMethod::PATCH => "PATCH"@,
            HttpMethod::TRACE => "TRACE"@,
        }
    }

    /// The method that a token names: the token is matched exactly, in upper case.
    pub open spec fn from_token(token: Seq<char>) -> Option<HttpMethod> {
        if token == "GET"@ {
            Some(HttpMethod::GET)
        } else if token == "POST"@ {
            Some(HttpMethod::POST)
        } else if token == "PUT"@ {
            Some(HttpMethod::PUT)
        } else if token == "DELETE"@ {
            Some(HttpMethod::DELETE)
        } else if token == "OPTIONS"@ {
            Some(HttpMethod::OPTIONS)
        } else if token == "HEAD"@ {
            Some(HttpMethod::HEAD)
        } else if token == "CONNECT"@ {
            Some(HttpMethod::CONNECT)
        } else if token == "PATCH"@ {
            Some(HttpMethod::PATCH)
        } else if token == "TRACE"@ {
            Some(HttpMethod::TRACE)
        } else {
            None
        }
    }

    /// Reads a method from its token. Any other text is an unknown method,
    /// and the error carries it.
    pub fn from_str(input: &str) -> (r: Result<HttpMethod, ParseError>)
        ensures
            match HttpMethod::from_token(input@) {
                Some(method) => r == Ok::<HttpMethod, ParseError>(method),
                None => r matches Err(e) && e@ == ParseErrorView::UnknownMethod(input@),
            },
    {
        if str_eq(input, "GET") {
            Ok(HttpMethod::GET)
        } else if str_eq(input, "POST") {
            Ok(HttpMethod::POST)
        } else if str_eq(input, "PUT") {
            Ok(HttpMethod::PUT)
        } else if str_eq(input, "DELETE") {
            Ok(HttpMethod::DELETE)
        } else if str_eq(input, "OPTIONS") {
            Ok(HttpMethod::OPTIONS)
        } else if str_eq(input, "HEAD") {
            Ok(HttpMethod::HEAD)
        } else if str_eq(input, "CONNECT") {
            Ok(HttpMethod::CONNECT)
        } else if str_eq(input, "PATCH") {
            Ok(HttpMethod::PATCH)
        } else if str_eq(input, "TRACE") {
            Ok(HttpMethod::TRACE)
        } else {
            Err(ParseError::UnknownMethod(input.to_owned()))
        }
    }

    /// The method's token.
    pub fn as_str(&self) -> (s: &'static str)
        ensures
            s@ == self.token(),
    {
        match self {
            HttpMethod::GET => "GET",
            HttpMethod::POST => "POST",
            HttpMethod::PUT => "PUT",
            HttpMethod::DELETE => "DELETE",
            HttpMethod::OPTIONS => "OPTIONS",
            HttpMethod::HEAD => "HEAD",
            HttpMethod::CONNECT => "CONNECT",
            HttpMethod::PATCH => "PATCH",
            HttpMethod::TRACE => "TRACE",
        }
    }

    /// The method's token, as an owned string.
    pub fn to_string(&self) -> (s: String)
        ensures
            s@ == self.token(),
    {
        self.as_str().to_owned()
    }

    /// Every method is read back from its own token.
    pub proof fn lemma_round_trip(self)
        ensures
            HttpMethod::from_token(self.token()) == Some(self),
    {
        reveal_strlit("GET");
        reveal_strlit("POST");
        reveal_strlit("PUT");
        reveal_strlit("DELETE");
        reveal_strlit("OPTIONS");
        reveal_strlit("HEAD");
        reveal_strlit("CONNECT");
        reveal_strlit("PATCH");
        reveal_strlit("TRACE");
        assert("GET"@[0] == 'G' && "PUT"@[0] == 'P');
        assert("POST"@[0] == 'P' && "HEAD"@[0] == 'H');
        assert("PATCH"@[0] == 'P' && "TRACE"@[0] == 'T');
        assert("OPTIONS"@[0] == 'O' && "CONNECT"@[0] == 'C');
        assert("GET"@.len() == 3 && "PUT"@.len() == 3);
        assert("POST"@.len() == 4 && "HEAD"@.len() == 4);
        assert("PATCH"@.len() == 5 && "TRACE"@.len() == 5);
        assert("DELETE"@.len() == 6);
        assert("OPTIONS"@.len() == 7 && "CONNECT"@.len() == 7);
    }

    /// A token names at most one method, and that method's token is the token.
    pub proof fn lemma_token_of_parsed(token: Seq<char>)
        ensures
            HttpMethod::from_token(token) matches Some(method) ==> method.token() == token,
    {
    }
}

} // verus!
