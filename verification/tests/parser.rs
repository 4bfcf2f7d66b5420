use http_server::{
    HttpEncoding, HttpMethod, HttpRequest, HttpVersion, ParseError, Parser, ParserState,
};

fn text(s: &str) -> String {
    s.to_string()
}

fn parsed(stream: &[u8]) -> Parser {
    Parser::new().parse(stream).unwrap()
}

fn request(stream: &[u8]) -> HttpRequest {
    parsed(stream).get_request().ok().unwrap()
}

#[test]
fn new_parser_is_at_the_start() {
    let parser = Parser::new();
    assert_eq!(parser.state(), ParserState::Start);
    assert_eq!(parser.content_length(), None);
    assert!(parser.get_request().is_err());
}

#[test]
fn simple_request_is_read() {
    let r = request(b"GET /index.html HTTP/1.1\r\nHost: localhost\r\n\r\n");
    assert_eq!(r.method, HttpMethod::GET);
    assert_eq!(r.path, "/index.html");
    assert_eq!(r.version, HttpVersion::V11);
    assert_eq!(r.headers.get_value(&text("Host")), Some(text("localhost")));
    assert_eq!(r.headers.len(), 1);
    assert_eq!(r.encoding, None);
    assert_eq!(r.body, None);
}

#[test]
fn request_without_headers_is_read() {
    let r = request(b"DELETE /x HTTP/1.0\r\n\r\n");
    assert_eq!(r.method, HttpMethod::DELETE);
    assert_eq!(r.path, "/x");
    assert_eq!(r.version, HttpVersion::V10);
    assert_eq!(r.headers.len(), 0);
}

#[test]
fn bare_line_feeds_end_lines_too() {
    let r = request(b"GET / HTTP/1.1\nHost: a\n\n");
    assert_eq!(r.path, "/");
    assert_eq!(r.headers.get_value(&text("Host")), Some(text("a")));
}

#[test]
fn tokens_may_be_separated_by_any_ascii_white_space() {
    let r = request(b"  GET \t /a\x0c  HTTP/2.0 \r\n\r\n");
    assert_eq!(r.method, HttpMethod::GET);
    assert_eq!(r.path, "/a");
    assert_eq!(r.version, HttpVersion::V20);
}

#[test]
fn tokens_behind_the_version_are_not_looked_at() {
    let r = request(b"GET / HTTP/1.1 extra tokens\r\n\r\n");
    assert_eq!(r.method, HttpMethod::GET);
    assert_eq!(r.path, "/");
    assert_eq!(r.version, HttpVersion::V11);
}

#[test]
fn path_is_kept_raw() {
    let r = request(b"GET /a%20b/../c?x=1#f HTTP/1.1\r\n\r\n");
    assert_eq!(r.path, "/a%20b/../c?x=1#f");
}

#[test]
fn headers_without_blank_line_leave_the_parser_unfinished() {
    let parser = parsed(b"GET / HTTP/1.1\r\nHost: localhost\r\n");
    assert_eq!(parser.state(), ParserState::Headers);
    assert!(parser.get_request().is_err());
}

#[test]
fn unterminated_header_line_leaves_the_parser_unfinished() {
    let parser = parsed(b"GET / HTTP/1.1\r\nHost: localhost");
    assert_eq!(parser.state(), ParserState::Headers);
    assert!(parser.get_request().is_err());
}

#[test]
fn request_line_alone_leaves_the_parser_in_headers() {
    let parser = parsed(b"GET / HTTP/1.1\r\n");
    assert_eq!(parser.state(), ParserState::Headers);
}

#[test]
fn empty_stream_leaves_the_parser_at_the_start() {
    let parser = parsed(b"");
    assert_eq!(parser.state(), ParserState::Start);
    assert!(parser.get_request().is_err());
}

#[test]
fn incomplete_request_from_stream_is_unreachable() {
    let r = HttpRequest::from_stream(b"GET / HTTP/1.1\r\nHost: localhost\r\n");
    assert!(matches!(r, Err(ParseError::Unreachable)));
    let r = HttpRequest::from_stream(b"");
    assert!(matches!(r, Err(ParseError::Unreachable)));
}

#[test]
fn complete_request_from_stream() {
    let r = HttpRequest::from_stream(b"POST /files/a HTTP/1.1\r\nContent-Length: 2\r\n\r\nhi")
        .unwrap();
    assert_eq!(r.method, HttpMethod::POST);
    assert_eq!(r.path, "/files/a");
    assert_eq!(r.body, Some(b"hi".to_vec()));
}

#[test]
fn body_of_declared_length_is_read() {
    let r = request(b"POST /x HTTP/1.1\r\nContent-Length: 5\r\n\r\nhello");
    assert_eq!(r.body, Some(b"hello".to_vec()));
    assert_eq!(r.headers.get_value(&text("Content-Length")), Some(text("5")));
}

#[test]
fn short_body_is_malformed() {
    let r = Parser::new().parse(b"POST /x HTTP/1.1\r\nContent-Length: 10\r\n\r\nhello");
    assert!(matches!(r, Err(ParseError::MalformedRequest)));
    let r = HttpRequest::from_stream(b"POST /x HTTP/1.1\r\nContent-Length: 10\r\n\r\nhello");
    assert!(matches!(r, Err(ParseError::MalformedRequest)));
}

#[test]
fn missing_body_is_malformed() {
    let r = Parser::new().parse(b"POST /x HTTP/1.1\r\nContent-Length: 1\r\n\r\n");
    assert!(matches!(r, Err(ParseError::MalformedRequest)));
}

#[test]
fn nothing_is_read_beyond_the_declared_length() {
    let r = request(b"POST /x HTTP/1.1\r\nContent-Length: 3\r\n\r\nabcdef");
    assert_eq!(r.body, Some(b"abc".to_vec()));
}

#[test]
fn body_of_length_zero_is_empty_but_present() {
    let r = request(b"POST /x HTTP/1.1\r\nContent-Length: 0\r\n\r\n");
    assert_eq!(r.body, Some(Vec::new()));
}

#[test]
fn body_may_hold_any_bytes() {
    let r = request(b"POST /x HTTP/1.1\r\nContent-Length: 4\r\n\r\n\xff\x00\n\xfe");
    assert_eq!(r.body, Some(vec![0xff, 0x00, 0x0a, 0xfe]));
}

#[test]
fn without_content_length_there_is_no_body() {
    let r = request(b"POST /x HTTP/1.1\r\nHost: a\r\n\r\nignored");
    assert_eq!(r.body, None);
}

#[test]
fn content_length_is_recognised_in_any_case() {
    let r = request(b"POST /x HTTP/1.1\r\ncontent-LENGTH: 2\r\n\r\nok");
    assert_eq!(r.body, Some(b"ok".to_vec()));
    assert_eq!(r.headers.get_value(&text("content-LENGTH")), Some(text("2")));
    assert_eq!(r.headers.get_value(&text("Content-Length")), None);
}

#[test]
fn content_length_may_carry_a_plus_sign_and_leading_zeros() {
    let r = request(b"POST /x HTTP/1.1\r\nContent-Length: +002\r\n\r\nok");
    assert_eq!(r.body, Some(b"ok".to_vec()));
}

#[test]
fn content_length_that_is_no_number_is_malformed() {
    for value in ["abc", "-1", "", "1 2", "1.5", "0x10", "+", "99999999999999999999999999"] {
        let stream = format!("POST /x HTTP/1.1\r\nContent-Length: {}\r\n\r\n", value);
        let r = Parser::new().parse(stream.as_bytes());
        assert!(matches!(r, Err(ParseError::MalformedRequest)), "value {:?}", value);
    }
}

#[test]
fn later_content_length_replaces_the_earlier() {
    let r = request(b"POST /x HTTP/1.1\r\nContent-Length: 5\r\nContent-Length: 2\r\n\r\nhello");
    assert_eq!(r.body, Some(b"he".to_vec()));
    assert_eq!(r.headers.get_value(&text("Content-Length")), Some(text("2")));
}

#[test]
fn lowest_ranked_encoding_is_negotiated() {
    let r = request(b"GET / HTTP/1.1\r\nAccept-Encoding: zstd, gzip, br\r\n\r\n");
    assert_eq!(r.encoding, Some(HttpEncoding::Gzip));
    assert_eq!(r.headers.get_value(&text("Accept-Encoding")), Some(text("zstd, gzip, br")));
}

#[test]
fn negotiation_ignores_the_order_of_the_client() {
    let r = request(b"GET / HTTP/1.1\r\nAccept-Encoding: identity,br,deflate\r\n\r\n");
    assert_eq!(r.encoding, Some(HttpEncoding::Deflate));
    let r = request(b"GET / HTTP/1.1\r\nAccept-Encoding: zstd\r\n\r\n");
    assert_eq!(r.encoding, Some(HttpEncoding::Zstd));
}

#[test]
fn unknown_encodings_count_as_unsupported() {
    let r = request(b"GET / HTTP/1.1\r\nAccept-Encoding: snappy, lz4\r\n\r\n");
    assert_eq!(r.encoding, Some(HttpEncoding::Unsupported));
    let r = request(b"GET / HTTP/1.1\r\nAccept-Encoding: snappy, exi\r\n\r\n");
    assert_eq!(r.encoding, Some(HttpEncoding::Exi));
    let r = request(b"GET / HTTP/1.1\r\nAccept-Encoding: GZIP\r\n\r\n");
    assert_eq!(r.encoding, Some(HttpEncoding::Unsupported));
}

#[test]
fn empty_accept_encoding_is_unsupported() {
    let r = request(b"GET / HTTP/1.1\r\nAccept-Encoding: \r\n\r\n");
    assert_eq!(r.encoding, Some(HttpEncoding::Unsupported));
}

#[test]
fn accept_encoding_is_recognised_in_any_case_and_adds_up() {
    let r = request(
        b"GET / HTTP/1.1\r\naccept-encoding: zstd\r\nACCEPT-ENCODING: compress ,\tbr\r\n\r\n",
    );
    assert_eq!(r.encoding, Some(HttpEncoding::Brotli));
}

#[test]
fn without_accept_encoding_nothing_is_negotiated() {
    let r = request(b"GET / HTTP/1.1\r\nAccept: */*\r\n\r\n");
    assert_eq!(r.encoding, None);
}

#[test]
fn unknown_method_is_told_from_missing_method() {
    match Parser::new().parse(b"FOO / HTTP/1.1\r\n\r\n") {
        Err(ParseError::UnknownMethod(token)) => assert_eq!(token, "FOO"),
        other => panic!("unexpected: {:?}", other.map(|_| ())),
    }
    let r = Parser::new().parse(b"\r\n");
    assert!(matches!(r, Err(ParseError::MissingMethod)));
    let r = Parser::new().parse(b"   \t \r\n");
    assert!(matches!(r, Err(ParseError::MissingMethod)));
}

#[test]
fn unknown_method_is_reported_before_a_missing_path() {
    match Parser::new().parse(b"FOO\r\n") {
        Err(ParseError::UnknownMethod(token)) => assert_eq!(token, "FOO"),
        other => panic!("unexpected: {:?}", other.map(|_| ())),
    }
}

#[test]
fn missing_path_and_missing_version() {
    let r = Parser::new().parse(b"GET\r\n\r\n");
    assert!(matches!(r, Err(ParseError::MissingPath)));
    let r = Parser::new().parse(b"GET /\r\n\r\n");
    assert!(matches!(r, Err(ParseError::MissingVersion)));
}

#[test]
fn unhandled_version_carries_the_token_of_the_line() {
    match Parser::new().parse(b"GET / HTTP/0.9\r\n\r\n") {
        Err(ParseError::UnhandledVersion(token)) => assert_eq!(token, "HTTP/0.9"),
        other => panic!("unexpected: {:?}", other.map(|_| ())),
    }
}

#[test]
fn header_line_without_separator_is_malformed() {
    let r = Parser::new().parse(b"GET / HTTP/1.1\r\nHost\r\n\r\n");
    assert!(matches!(r, Err(ParseError::MalformedRequest)));
    let r = Parser::new().parse(b"GET / HTTP/1.1\r\nHost:localhost\r\n\r\n");
    assert!(matches!(r, Err(ParseError::MalformedRequest)));
}

#[test]
fn header_value_is_what_follows_the_first_separator() {
    let r = request(b"GET / HTTP/1.1\r\nReferer: http://a: b: c\r\n\r\n");
    assert_eq!(r.headers.get_value(&text("Referer")), Some(text("http://a: b: c")));
}

#[test]
fn header_name_and_value_are_trimmed() {
    let r = request(b"GET / HTTP/1.1\r\n  X-Name \t:   some value \t \r\n\r\n");
    assert_eq!(r.headers.get_value(&text("X-Name")), Some(text("some value")));
    assert_eq!(r.headers.len(), 1);
}

#[test]
fn unicode_white_space_is_trimmed_too() {
    let r = request("GET / HTTP/1.1\r\nX: \u{a0}\u{3000}v\u{2003}\r\n\r\n".as_bytes());
    assert_eq!(r.headers.get_value(&text("X")), Some(text("v")));
}

#[test]
fn header_with_empty_value() {
    let r = request(b"GET / HTTP/1.1\r\nX-Empty: \r\n\r\n");
    assert_eq!(r.headers.get_value(&text("X-Empty")), Some(text("")));
}

#[test]
fn later_header_of_the_same_name_wins() {
    let r = request(b"GET / HTTP/1.1\r\nX: 1\r\nY: 2\r\nX: 3\r\n\r\n");
    assert_eq!(r.headers.get_value(&text("X")), Some(text("3")));
    assert_eq!(r.headers.len(), 2);
}

#[test]
fn line_of_white_space_ends_the_headers() {
    let r = request(b"GET / HTTP/1.1\r\nX: 1\r\n  \t \r\nY: 2\r\n\r\n");
    assert_eq!(r.headers.len(), 1);
    assert_eq!(r.headers.get_value(&text("Y")), None);
}

#[test]
fn line_that_is_not_utf8_is_malformed() {
    let r = Parser::new().parse(b"GET /\xff HTTP/1.1\r\n\r\n");
    assert!(matches!(r, Err(ParseError::MalformedRequest)));
    let r = Parser::new().parse(b"GET / HTTP/1.1\r\nX: \xc3\x28\r\n\r\n");
    assert!(matches!(r, Err(ParseError::MalformedRequest)));
}

#[test]
fn utf8_in_headers_is_decoded() {
    let r = request("GET /caf\u{e9} HTTP/1.1\r\nX-City: K\u{f6}ln\r\n\r\n".as_bytes());
    assert_eq!(r.path, "/caf\u{e9}");
    assert_eq!(r.headers.get_value(&text("X-City")), Some(text("K\u{f6}ln")));
}

#[test]
fn lines_can_be_fed_one_by_one() {
    let mut parser = Parser::new();
    parser.accept_line("PUT /files/a HTTP/1.1\r\n").unwrap();
    assert_eq!(parser.state(), ParserState::Headers);
    parser.accept_line("Content-Length: 3\r\n").unwrap();
    assert_eq!(parser.state(), ParserState::Headers);
    assert_eq!(parser.content_length(), Some(3));
    parser.accept_line("\r\n").unwrap();
    assert_eq!(parser.state(), ParserState::Body);
    parser.accept_body(b"abc").unwrap();
    assert_eq!(parser.state(), ParserState::Done);
    let r = parser.get_request().ok().unwrap();
    assert_eq!(r.method, HttpMethod::PUT);
    assert_eq!(r.body, Some(b"abc".to_vec()));
}

#[test]
fn blank_line_without_length_completes_the_request() {
    let mut parser = Parser::new();
    parser.accept_line("GET / HTTP/1.1\r\n").unwrap();
    parser.accept_line("\r\n").unwrap();
    assert_eq!(parser.state(), ParserState::Done);
}

#[test]
fn a_parser_that_is_done_takes_nothing_more() {
    let mut parser = parsed(b"GET / HTTP/1.1\r\n\r\n");
    assert_eq!(parser.state(), ParserState::Done);
    assert!(matches!(parser.accept_line("X: 1\r\n"), Err(ParseError::Unreachable)));
    assert!(matches!(parser.accept_body(b"abc"), Err(ParseError::Unreachable)));
    assert_eq!(parser.state(), ParserState::Done);
    let again = parser.parse(b"POST /other HTTP/1.1\r\n\r\n").unwrap();
    let r = again.get_request().ok().unwrap();
    assert_eq!(r.method, HttpMethod::GET);
    assert_eq!(r.path, "/");
}

#[test]
fn a_parser_that_awaits_the_body_takes_no_line() {
    let mut parser = Parser::new();
    parser.accept_line("POST / HTTP/1.1\r\n").unwrap();
    parser.accept_line("Content-Length: 1\r\n").unwrap();
    parser.accept_line("\r\n").unwrap();
    assert!(matches!(parser.accept_line("x"), Err(ParseError::Unreachable)));
    assert_eq!(parser.state(), ParserState::Body);
}

#[test]
fn a_body_is_taken_only_when_awaited() {
    let mut parser = Parser::new();
    assert!(matches!(parser.accept_body(b"abc"), Err(ParseError::Unreachable)));
    assert_eq!(parser.state(), ParserState::Start);
    parser.accept_line("GET / HTTP/1.1\r\n").unwrap();
    assert!(matches!(parser.accept_body(b"abc"), Err(ParseError::Unreachable)));
    assert_eq!(parser.state(), ParserState::Headers);
}

#[test]
fn a_failed_line_leaves_the_parser_as_it_was() {
    let mut parser = Parser::new();
    assert!(matches!(parser.accept_line("GET /\r\n"), Err(ParseError::MissingVersion)));
    assert_eq!(parser.state(), ParserState::Start);
    parser.accept_line("GET / HTTP/1.1\r\n").unwrap();
    assert!(matches!(parser.accept_line("nonsense\r\n"), Err(ParseError::MalformedRequest)));
    assert!(matches!(
        parser.accept_line("Content-Length: x\r\n"),
        Err(ParseError::MalformedRequest)
    ));
    assert_eq!(parser.state(), ParserState::Headers);
    assert_eq!(parser.content_length(), None);
    parser.accept_line("\r\n").unwrap();
    let r = parser.get_request().ok().unwrap();
    assert_eq!(r.headers.len(), 0);
}

#[test]
fn a_short_body_leaves_the_parser_awaiting_it() {
    let mut parser = Parser::new();
    parser.accept_line("POST / HTTP/1.1\r\n").unwrap();
    parser.accept_line("Content-Length: 4\r\n").unwrap();
    parser.accept_line("\r\n").unwrap();
    assert!(matches!(parser.accept_body(b"abc"), Err(ParseError::MalformedRequest)));
    assert_eq!(parser.state(), ParserState::Body);
    parser.accept_body(b"abcd").unwrap();
    assert_eq!(parser.state(), ParserState::Done);
}

#[test]
fn request_on_the_wire() {
    let r = request(b"POST /x HTTP/1.1\r\nHost: a\r\nContent-Length: 2\r\n\r\nhi");
    assert_eq!(
        r.to_string(),
        Some(text("POST /x HTTP/1.1\r\nHost: a\r\nContent-Length: 2\r\n\r\nhi"))
    );
    let r = request(b"GET / HTTP/1.0\n\n");
    assert_eq!(r.to_string(), Some(text("GET / HTTP/1.0\r\n\r\n")));
}

#[test]
fn request_with_a_body_that_is_not_utf8_is_no_text() {
    let r = request(b"POST /x HTTP/1.1\r\nContent-Length: 2\r\n\r\n\xff\xfe");
    assert_eq!(r.to_string(), None);
}
