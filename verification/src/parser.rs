//! The state machine that reads a request, line by line and then the body.

use vstd::prelude::*;
use vstd::slice::*;
use vstd::string::*;
use vstd::utf8::*;
use crate::encoding::{lowest_encoding, EncodingSet, HttpEncoding};
use crate::error::{ParseError, ParseErrorView};
use crate::header::{HeadersView, HttpHeaderCollection};
use crate::method::HttpMethod;
use crate::request::{HttpRequest, RequestView};
use crate::text::{
    chars_of, eq_ignore_ascii_case, eq_ignoring_ascii_case, find_separator, first_separator,
    is_blank, parse_usize, run_end, scan, trim, trimmed, unsigned_value,
    utf8_text, CharClass,
};
use crate::version::HttpVersion;

verus! {

/// Where the parser stands.
#[derive(Debug, Clone, Copy, PartialEq, Eq, Structural)]
pub enum ParserState {
    /// Nothing was read yet: the request line comes next.
    Start,
    /// The request line was read: header lines come next.
    Headers,
    /// The headers ended and declared a length: the body comes next.
    Body,
    /// The request is complete.
    Done,
}

/// What `get_request` answers while the request is not complete.
#[derive(Debug)]
pub struct Unparsed;

/// Where the token begins that is looked for from `from` on: behind the
/// ASCII white space that stands there.
pub open spec fn token_start(line: Seq<char>, from: int) -> int {
    run_end(line, from, CharClass::AsciiWhitespace)
}

/// Where that token ends: at the next ASCII white space, or with the line.
pub open spec fn token_end(line: Seq<char>, from: int) -> int {
    run_end(line, token_start(line, from), CharClass::Token)
}

/// Whether there is a token at or after `from`.
pub open spec fn has_token(line: Seq<char>, from: int) -> bool {
    token_start(line, from) < token_end(line, from)
}

/// The first token at or after `from`.
pub open spec fn token_at(line: Seq<char>, from: int) -> Seq<char> {
    line.subrange(token_start(line, from), token_end(line, from))
}

/// What a request line says: its first three tokens are the method, the
/// path and the version, and what follows them is not looked at. A token
/// that is missing or that names no method or version is an error; the
/// first one found, from left to right, is reported.
pub open spec fn request_line(line: Seq<char>) -> Result<
    (HttpMethod, Seq<char>, HttpVersion),
    ParseErrorView,
> {
    let path_from = token_end(line, 0);
    let version_from = token_end(line, path_from);
    if !has_token(line, 0) {
        Err(ParseErrorView::MissingMethod)
    } else {
        match HttpMethod::from_token(token_at(line, 0)) {
            None => Err(ParseErrorView::UnknownMethod(token_at(line, 0))),
            Some(method) => if !has_token(line, path_from) {
                Err(ParseErrorView::MissingPath)
            } else if !has_token(line, version_from) {
                Err(ParseErrorView::MissingVersion)
            } else {
                match HttpVersion::from_token(token_at(line, version_from)) {
                    None => Err(ParseErrorView::UnhandledVersion(token_at(line, version_from))),
                    Some(version) => Ok((method, token_at(line, path_from), version)),
                }
            },
        }
    }
}

/// The name and value of a header line: what stands before and behind the
/// first `": "`, each without the white space around it. A line without
/// `": "` has neither.
pub open spec fn header_field(line: Seq<char>) -> Option<(Seq<char>, Seq<char>)> {
    match first_separator(line, 0) {
        Some(at) => Some(
            (trimmed(line.subrange(0, at)), trimmed(line.subrange(at + 2, line.len() as int))),
        ),
        None => None,
    }
}

/// The encodings that a comma-separated list names from index `from` on.
/// Each item is read without the white space around it; an item that names
/// no encoding, an empty one too, counts as the unsupported encoding.
pub open spec fn listed_encodings(value: Seq<char>, from: int) -> Set<HttpEncoding>
    decreases value.len() - from,
{
    let end = run_end(value, from, CharClass::ListItem);
    let item = HttpEncoding::from_token(trimmed(value.subrange(from, end)));
    if 0 <= from <= end < value.len() {
        listed_encodings(value, end + 1).insert(item)
    } else {
        set![item]
    }
}

/// Where the line that begins at `from` ends: behind its line feed, or with
/// the stream when there is none.
pub open spec fn line_end(bytes: Seq<u8>, from: int) -> int
    decreases bytes.len() - from,
{
    if from < 0 || from >= bytes.len() {
        from
    } else if bytes[from] == 10u8 {
        from + 1
    } else {
        line_end(bytes, from + 1)
    }
}

/// A line is not empty and ends inside the stream.
pub proof fn lemma_line_end(bytes: Seq<u8>, from: int)
    requires
        0 <= from < bytes.len(),
    ensures
        from < line_end(bytes, from) <= bytes.len(),
        line_end(bytes, from) == bytes.len() || bytes[line_end(bytes, from) - 1] == 10u8,
    decreases bytes.len() - from,
{
    if bytes[from] != 10u8 {
        if from + 1 < bytes.len() {
            lemma_line_end(bytes, from + 1);
        } else {
            assert(line_end(bytes, from + 1) == from + 1);
        }
    }
}

/// The mathematical value of a parser: its state and what it has read.
pub struct ParserView {
    pub state: ParserState,
    pub method: Option<HttpMethod>,
    pub path: Option<Seq<char>>,
    pub version: Option<HttpVersion>,
    pub headers: HeadersView,
    pub body: Option<Seq<u8>>,
    pub content_length: Option<usize>,
    pub encodings: Set<HttpEncoding>,
}

impl ParserView {
    /// The parser that has read nothing.
    pub open spec fn start() -> ParserView {
        ParserView {
            state: ParserState::Start,
            method: None,
            path: None,
            version: None,
            headers: HeadersView::empty(),
            body: None,
            content_length: None,
            encodings: Set::empty(),
        }
    }

    /// What holds of every parser: once the request line was read, method,
    /// path and version are known, and a body is awaited only when a length
    /// was declared.
    pub open spec fn wf(self) -> bool {
        &&& self.state != ParserState::Start ==> self.method is Some && self.path is Some
            && self.version is Some
        &&& self.state == ParserState::Body ==> self.content_length is Some
    }

    /// Whether the parser takes another line.
    pub open spec fn reads_lines(self) -> bool {
        self.state == ParserState::Start || self.state == ParserState::Headers
    }

    /// The parser after the request line `line`.
    pub open spec fn after_start_line(self, line: Seq<char>) -> Result<ParserView, ParseErrorView> {
        match request_line(line) {
            Ok((method, path, version)) => Ok(
                ParserView {
                    state: ParserState::Headers,
                    method: Some(method),
                    path: Some(path),
                    version: Some(version),
                    ..self
                },
            ),
            Err(error) => Err(error),
        }
    }

    /// The parser after the header line `line`. A blank line ends the
    /// headers: the body comes next when a length was declared, and the
    /// request is complete when none was. Any other line has to hold a
    /// header. `Content-Length` and `Accept-Encoding` are recognised
    /// whatever the case of their letters: the first has to be a number,
    /// which is remembered, and the encodings that the second lists join
    /// the accepted ones. The header is stored under its name as received.
    pub open spec fn after_header(self, line: Seq<char>) -> Result<ParserView, ParseErrorView> {
        if is_blank(line) {
            Ok(
                ParserView {
                    state: if self.content_length is Some {
                        ParserState::Body
                    } else {
                        ParserState::Done
                    },
                    ..self
                },
            )
        } else {
            match header_field(line) {
                None => Err(ParseErrorView::MalformedRequest),
                Some((name, value)) => {
                    let length = if eq_ignoring_ascii_case(name, "Content-Length"@) {
                        match unsigned_value(value) {
                            Some(n) => if n <= usize::MAX {
                                Ok(Some(n as usize))
                            } else {
                                Err(ParseErrorView::MalformedRequest)
                            },
                            None => Err(ParseErrorView::MalformedRequest),
                        }
                    } else {
                        Ok(self.content_length)
                    };
                    match length {
                        Err(error) => Err(error),
                        Ok(content_length) => Ok(
                            ParserView {
                                content_length,
                                encodings: if eq_ignoring_ascii_case(name, "Accept-Encoding"@) {
                                    self.encodings.union(listed_encodings(value, 0))
                                } else {
                                    self.encodings
                                },
                                headers: self.headers.insert(name, value),
                                ..self
                            },
                        ),
                    }
                },
            }
        }
    }

    /// The parser after one more line. A parser that awaits the body or is
    /// done takes no line.
    pub open spec fn after_line(self, line: Seq<char>) -> Result<ParserView, ParseErrorView> {
        match self.state {
            ParserState::Start => self.after_start_line(line),
            ParserState::Headers => self.after_header(line),
            ParserState::Body => Err(ParseErrorView::Unreachable),
            ParserState::Done => Err(ParseErrorView::Unreachable),
        }
    }

    /// The parser after the body was taken from `available`: exactly as
    /// many bytes as were declared, which have to be there. Only a parser
    /// that awaits the body takes one.
    pub open spec fn after_body(self, available: Seq<u8>) -> Result<ParserView, ParseErrorView> {
        if self.state != ParserState::Body {
            Err(ParseErrorView::Unreachable)
        } else {
            match self.content_length {
                Some(length) => if length <= available.len() {
                    Ok(
                        ParserView {
                            state: ParserState::Done,
                            body: Some(available.subrange(0, length as int)),
                            ..self
                        },
                    )
                } else {
                    Err(ParseErrorView::MalformedRequest)
                },
                None => Ok(ParserView { state: ParserState::Done, ..self }),
            }
        }
    }

    /// The parser after the lines of `bytes` from index `from` on, and the
    /// index at which it stopped reading lines: at the end of the headers,
    /// or at the end of the stream. A line that is not UTF-8 is malformed.
    pub open spec fn after_lines(self, bytes: Seq<u8>, from: int) -> Result<
        (ParserView, int),
        ParseErrorView,
    >
        decreases bytes.len() - from,
    {
        if !self.reads_lines() || from < 0 || from >= bytes.len() {
            Ok((self, from))
        } else {
            let end = line_end(bytes, from);
            let raw = bytes.subrange(from, end);
            if !valid_utf8(raw) {
                Err(ParseErrorView::MalformedRequest)
            } else {
                match self.after_line(decode_utf8(raw)) {
                    Err(error) => Err(error),
                    Ok(next) => {
                        proof {
                            lemma_line_end(bytes, from);
                        }
                        next.after_lines(bytes, end)
                    },
                }
            }
        }
    }

    /// The parser after the whole stream `bytes`: after its lines, and
    /// after the body where one is awaited.
    pub open spec fn after_stream(self, bytes: Seq<u8>) -> Result<ParserView, ParseErrorView> {
        match self.after_lines(bytes, 0) {
            Err(error) => Err(error),
            Ok((parsed, at)) => if parsed.state == ParserState::Body {
                parsed.after_body(bytes.subrange(at, bytes.len() as int))
            } else {
                Ok(parsed)
            },
        }
    }

    /// The request that a parser that is done has read. The encoding is the
    /// accepted one of lowest rank, whatever the order the client named
    /// them in.
    pub open spec fn request(self) -> RequestView {
        RequestView {
            method: self.method->0,
            path: self.path->0,
            version: self.version->0,
            headers: self.headers,
            encoding: lowest_encoding(self.encodings),
            body: self.body,
        }
    }
}

/// Whether a blank line begins at index `at` of `bytes`: `at` is where a
/// line begins, and the line holds nothing but white space.
pub open spec fn blank_line_at(bytes: Seq<u8>, at: int) -> bool {
    let raw = bytes.subrange(at, line_end(bytes, at));
    &&& 0 <= at < bytes.len()
    &&& (at == 0 || bytes[at - 1] == 10u8)
    &&& valid_utf8(raw)
    &&& is_blank(decode_utf8(raw))
}

impl ParserView {
    /// A line keeps a parser well formed.
    pub proof fn lemma_after_line_wf(self, line: Seq<char>)
        requires
            self.wf(),
        ensures
            self.after_line(line) matches Ok(next) ==> next.wf(),
    {
    }

    /// The body keeps a parser well formed, and completes the request.
    pub proof fn lemma_after_body_wf(self, available: Seq<u8>)
        requires
            self.wf(),
        ensures
            self.after_body(available) matches Ok(next) ==> next.wf() && next.state
                == ParserState::Done,
    {
    }

    /// Without a blank line the headers do not end: a parser that reads the
    /// lines of `bytes` from the line start `from` on, none of them blank,
    /// fails or still reads lines afterwards.
    pub proof fn lemma_lines_without_blank_line(self, bytes: Seq<u8>, from: int)
        requires
            self.reads_lines(),
            0 <= from <= bytes.len(),
            from == 0 || from == bytes.len() || bytes[from - 1] == 10u8,
            forall|at: int| from <= at ==> !blank_line_at(bytes, at),
        ensures
            self.after_lines(bytes, from) matches Ok((parsed, at)) ==> parsed.reads_lines() && at
                == bytes.len(),
        decreases bytes.len() - from,
    {
        if from < bytes.len() {
            let end = line_end(bytes, from);
            let raw = bytes.subrange(from, end);
            lemma_line_end(bytes, from);
            if valid_utf8(raw) {
                assert(!blank_line_at(bytes, from));
                match self.after_line(decode_utf8(raw)) {
                    Ok(next) => {
                        next.lemma_lines_without_blank_line(bytes, end);
                    },
                    Err(_) => {},
                }
            }
        }
    }

    /// A stream without a blank line leaves the request incomplete: a
    /// parser that reads lines fails on it or still reads lines at its end.
    pub proof fn lemma_unfinished_without_blank_line(self, bytes: Seq<u8>)
        requires
            self.reads_lines(),
            forall|at: int| !blank_line_at(bytes, at),
        ensures
            self.after_stream(bytes) matches Ok(parsed) ==> parsed.reads_lines(),
    {
        self.lemma_lines_without_blank_line(bytes, 0);
    }

    /// A stream keeps a parser well formed.
    pub proof fn lemma_after_lines_wf(self, bytes: Seq<u8>, from: int)
        requires
            self.wf(),
        ensures
            self.after_lines(bytes, from) matches Ok((parsed, at)) ==> parsed.wf(),
        decreases bytes.len() - from,
    {
        if self.reads_lines() && 0 <= from < bytes.len() {
            let end = line_end(bytes, from);
            let raw = bytes.subrange(from, end);
            lemma_line_end(bytes, from);
            if valid_utf8(raw) {
                match self.after_line(decode_utf8(raw)) {
                    Ok(next) => {
                        self.lemma_after_line_wf(decode_utf8(raw));
                        next.lemma_after_lines_wf(bytes, end);
                    },
                    Err(_) => {},
                }
            }
        }
    }
}

/// Reads requests: `parse` takes a whole stream, `accept_line` and
/// `accept_body` take it piece by piece.
#[derive(Debug)]
pub struct Parser {
    state: ParserState,
    method: Option<HttpMethod>,
    path: Option<String>,
    version: Option<HttpVersion>,
    headers: HttpHeaderCollection,
    body: Option<Vec<u8>>,
    content_length: Option<usize>,
    content_encoding: EncodingSet,
}

impl View for Parser {
    type V = ParserView;

    closed spec fn view(&self) -> ParserView {
        ParserView {
            state: self.state,
            method: self.method,
            path: match self.path {
                Some(path) => Some(path@),
                None => None,
            },
            version: self.version,
            headers: self.headers@,
            body: match self.body {
                Some(body) => Some(body@),
                None => None,
            },
            content_length: self.content_length,
            encodings: self.content_encoding@,
        }
    }
}

/// Adds to `set` the encodings that `value` lists.
fn collect_encodings(set: &mut EncodingSet, value: &str)
    ensures
        final(set)@ == old(set)@.union(listed_encodings(value@, 0)),
{
    let chars = chars_of(value);
    let mut from: usize = 0;
    let mut more: bool = true;
    while more
        invariant
            chars@ == value@,
            from <= chars.len(),
            more ==> set@.union(listed_encodings(value@, from as int)) == old(set)@.union(
                listed_encodings(value@, 0),
            ),
            !more ==> set@ == old(set)@.union(listed_encodings(value@, 0)),
        decreases chars.len() - from + if more { 1int } else { 0int },
    {
        let end = scan(&chars, from, CharClass::ListItem);
        let item = trim(value.substring_char(from, end));
        let ghost before = set@;
        set.insert(HttpEncoding::from(item));
        proof {
            let this = HttpEncoding::from_token(trimmed(value@.subrange(from as int, end as int)));
            if end < chars.len() {
                assert(before.insert(this).union(listed_encodings(value@, end + 1))
                    =~= before.union(listed_encodings(value@, end + 1).insert(this)));
            } else {
                assert(before.insert(this) =~= before.union(set![this]));
            }
        }
        if end < chars.len() {
            from = end + 1;
        } else {
            more = false;
        }
    }
}

/// Finds the end of the line that begins at `from`.
fn find_line_end(stream: &[u8], from: usize) -> (end: usize)
    requires
        from < stream.len(),
    ensures
        end == line_end(stream@, from as int),
        from < end <= stream.len(),
{
    let mut at: usize = from;
    while at < stream.len() && stream[at] != 10u8
        invariant
            from <= at <= stream.len(),
            line_end(stream@, from as int) == line_end(stream@, at as int),
        decreases stream.len() - at,
    {
        at += 1;
    }
    if at < stream.len() {
        at + 1
    } else {
        proof {
            lemma_line_end(stream@, from as int);
        }
        at
    }
}

impl Parser {
    #[verifier::type_invariant]
    spec fn well_formed(self) -> bool {
        self@.wf()
    }

    /// A parser that has read nothing.
    pub fn new() -> (parser: Parser)
        ensures
            parser@ == ParserView::start(),
    {
        Parser {
            state: ParserState::Start,
            method: None,
            path: None,
            version: None,
            headers: HttpHeaderCollection::new(),
            body: None,
            content_length: None,
            content_encoding: EncodingSet::new(),
        }
    }

    /// Where the parser stands.
    pub fn state(&self) -> (state: ParserState)
        ensures
            state == self@.state,
            self@.wf(),
    {
        proof {
            use_type_invariant(self);
        }
        self.state
    }

    /// The length of the body that the headers declared, if they declared one.
    pub fn content_length(&self) -> (length: Option<usize>)
        ensures
            length == self@.content_length,
    {
        self.content_length
    }

    /// The request, once it is complete.
    pub fn get_request(self) -> (r: Result<HttpRequest, Unparsed>)
        ensures
            self@.state == ParserState::Done ==> (r matches Ok(request) && request@
                == self@.request()),
            self@.state != ParserState::Done ==> r is Err,
    {
        proof {
            use_type_invariant(&self);
        }
        if self.state != ParserState::Done {
            return Err(Unparsed);
        }
        Ok(
            HttpRequest {
                method: self.method.unwrap(),
                path: self.path.unwrap(),
                version: self.version.unwrap(),
                headers: self.headers,
                encoding: self.content_encoding.first(),
                body: self.body,
            },
        )
    }

    fn parse_start_line(&mut self, line: &str) -> (r: Result<(), ParseError>)
        requires
            old(self)@.state == ParserState::Start,
        ensures
            match old(self)@.after_start_line(line@) {
                Ok(next) => r is Ok && final(self)@ == next,
                Err(error) => r matches Err(e) && e@ == error && final(self)@ == old(self)@,
            },
    {
        let chars = chars_of(line);
        let method_from = scan(&chars, 0, CharClass::AsciiWhitespace);
        let method_to = scan(&chars, method_from, CharClass::Token);
        if method_from >= method_to {
            return Err(ParseError::MissingMethod);
        }
        let method = match HttpMethod::from_str(line.substring_char(method_from, method_to)) {
            Ok(method) => method,
            Err(error) => {
                return Err(error);
            },
        };
        let path_from = scan(&chars, method_to, CharClass::AsciiWhitespace);
        let path_to = scan(&chars, path_from, CharClass::Token);
        if path_from >= path_to {
            return Err(ParseError::MissingPath);
        }
        let version_from = scan(&chars, path_to, CharClass::AsciiWhitespace);
        let version_to = scan(&chars, version_from, CharClass::Token);
        if version_from >= version_to {
            return Err(ParseError::MissingVersion);
        }
        let version = match HttpVersion::from_str(line.substring_char(version_from, version_to)) {
            Ok(version) => version,
            Err(error) => {
                return Err(error);
            },
        };
        let path = line.substring_char(path_from, path_to).to_owned();
        self.method = Some(method);
        self.path = Some(path);
        self.version = Some(version);
        self.state = ParserState::Headers;
        Ok(())
    }

    fn parse_header(&mut self, line: &str) -> (r: Result<(), ParseError>)
        requires
            old(self)@.state == ParserState::Headers,
        ensures
            match old(self)@.after_header(line@) {
                Ok(next) => r is Ok && final(self)@ == next,
                Err(error) => r matches Err(e) && e@ == error && final(self)@ == old(self)@,
            },
    {
        proof {
            use_type_invariant(&*self);
        }
        let chars = chars_of(line);
        if scan(&chars, 0, CharClass::Whitespace) == chars.len() {
            self.state = if self.content_length.is_some() {
                ParserState::Body
            } else {
                ParserState::Done
            };
            return Ok(());
        }
        let at = match find_separator(&chars) {
            Some(at) => at,
            None => {
                return Err(ParseError::MalformedRequest);
            },
        };
        let key = trim(line.substring_char(0, at));
        let value = trim(line.substring_char(at + 2, chars.len()));
        if eq_ignore_ascii_case(key, "Content-Length") {
            match parse_usize(value) {
                Some(length) => {
                    self.content_length = Some(length);
                },
                None => {
                    return Err(ParseError::MalformedRequest);
                },
            }
        }
        if eq_ignore_ascii_case(key, "Accept-Encoding") {
            let mut accepted = self.content_encoding;
            collect_encodings(&mut accepted, value);
            self.content_encoding = accepted;
        }
        let mut headers = HttpHeaderCollection::new();
        std::mem::swap(&mut headers, &mut self.headers);
        headers.add_header(key.to_owned(), value.to_owned());
        self.headers = headers;
        Ok(())
    }

    fn parse_body(&mut self, available: &[u8]) -> (r: Result<(), ParseError>)
        requires
            old(self)@.state == ParserState::Body,
        ensures
            match old(self)@.after_body(available@) {
                Ok(next) => r is Ok && final(self)@ == next,
                Err(error) => r matches Err(e) && e@ == error && final(self)@ == old(self)@,
            },
    {
        proof {
            use_type_invariant(&*self);
        }
        if let Some(length) = self.content_length {
            if length > available.len() {
                return Err(ParseError::MalformedRequest);
            }
            let body = slice_to_vec(slice_subrange(available, 0, length));
            self.body = Some(body);
        }
        self.state = ParserState::Done;
        Ok(())
    }

    /// Feeds the parser the next line of the stream, line break included.
    /// On an error the parser is as it was.
    pub fn accept_line(&mut self, line: &str) -> (r: Result<(), ParseError>)
        ensures
            match old(self)@.after_line(line@) {
                Ok(next) => r is Ok && final(self)@ == next,
                Err(error) => r matches Err(e) && e@ == error && final(self)@ == old(self)@,
            },
    {
        match self.state {
            ParserState::Start => self.parse_start_line(line),
            ParserState::Headers => self.parse_header(line),
            ParserState::Body => Err(ParseError::Unreachable),
            ParserState::Done => Err(ParseError::Unreachable),
        }
    }

    /// Feeds the parser the bytes that follow the headers. It takes as many
    /// as were declared; fewer are an error, and the parser is then as it was.
    pub fn accept_body(&mut self, available: &[u8]) -> (r: Result<(), ParseError>)
        ensures
            match old(self)@.after_body(available@) {
                Ok(next) => r is Ok && final(self)@ == next,
                Err(error) => r matches Err(e) && e@ == error && final(self)@ == old(self)@,
            },
    {
        match self.state {
            ParserState::Body => self.parse_body(available),
            _ => Err(ParseError::Unreachable),
        }
    }

    /// Reads `stream`, the bytes that a connection delivers until it is
    /// closed: line by line up to the end of the headers, then the body. A
    /// stream that ends before that leaves the parser where it got to.
    pub fn parse(self, stream: &[u8]) -> (r: Result<Parser, ParseError>)
        ensures
            match self@.after_stream(stream@) {
                Ok(parsed) => r matches Ok(parser) && parser@ == parsed,
                Err(error) => r matches Err(e) && e@ == error,
            },
    {
        let mut parser = self;
        let mut at: usize = 0;
        while at < stream.len() && (parser.state() == ParserState::Start || parser.state()
            == ParserState::Headers)
            invariant
                at <= stream.len(),
                self@.after_lines(stream@, 0) == parser@.after_lines(stream@, at as int),
            decreases stream.len() - at,
        {
            let end = find_line_end(stream, at);
            let line = match utf8_text(slice_subrange(stream, at, end)) {
                Some(line) => line,
                None => {
                    return Err(ParseError::MalformedRequest);
                },
            };
            match parser.accept_line(line) {
                Ok(()) => {},
                Err(error) => {
                    return Err(error);
                },
            }
            at = end;
        }
        if parser.state() == ParserState::Body {
            match parser.accept_body(slice_subrange(stream, at, stream.len())) {
                Ok(()) => {},
                Err(error) => {
                    return Err(error);
                },
            }
        }
        Ok(parser)
    }
}

} // verus!
