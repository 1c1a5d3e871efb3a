use request_engine::{FieldValue, HeaderFault, HttpError, Method, Request, UrlFault};

fn written(request: &mut Request) -> Vec<u8> {
    let url = request.url().clone();
    request.write_request(&url).unwrap()
}

fn text(bytes: &[u8]) -> String {
    String::from_utf8_lossy(bytes).into_owned()
}

#[test]
fn new_takes_an_absolute_url() {
    let request = Request::new("http://example.com/a").unwrap();
    assert_eq!(request.url().as_str(), "http://example.com/a");
    assert_eq!(request.verb(), Method::Get);
    assert!(request.follows_redirects());
    assert!(request.encoding().is_none());
    assert_eq!(request.headers().len(), 0);
}

#[test]
fn new_refuses_what_is_no_url() {
    let refused = Request::new("not a url");
    assert!(matches!(refused, Err(HttpError::InvalidUrl(UrlFault::Unparsable))));
    let refused = Request::new("/only/a/path");
    assert!(matches!(refused, Err(HttpError::InvalidUrl(UrlFault::Unparsable))));
    let refused = Request::new("");
    assert!(matches!(refused, Err(HttpError::InvalidUrl(UrlFault::Unparsable))));
}

#[test]
fn new_normalises_the_url() {
    let request = Request::new("HTTP://Example.COM").unwrap();
    assert_eq!(request.url().as_str(), "http://example.com/");
    assert_eq!(request.url().path(), "/");
}

#[test]
fn method_changes_the_request_line() {
    let mut request = Request::new("http://example.com/a").unwrap();
    request.method(Method::Post);
    assert_eq!(request.verb(), Method::Post);
    let bytes = written(&mut request);
    assert!(bytes.starts_with(b"POST /a HTTP/1.1\r\n"));
}

#[test]
fn every_method_has_its_token() {
    assert_eq!(Method::Options.as_str(), "OPTIONS");
    assert_eq!(Method::Get.as_str(), "GET");
    assert_eq!(Method::Post.as_str(), "POST");
    assert_eq!(Method::Put.as_str(), "PUT");
    assert_eq!(Method::Delete.as_str(), "DELETE");
    assert_eq!(Method::Head.as_str(), "HEAD");
    assert_eq!(Method::Trace.as_str(), "TRACE");
    assert_eq!(Method::Connect.as_str(), "CONNECT");
    assert_eq!(Method::Patch.as_str(), "PATCH");
}

#[test]
fn param_is_percent_encoded_in_the_request_line() {
    let mut request = Request::new("http://example.com/a").unwrap();
    request.param("q", "x y");
    assert_eq!(request.url().query(), Some("q=x+y"));
    assert_eq!(request.url().as_str(), "http://example.com/a?q=x+y");
    let bytes = written(&mut request);
    assert!(bytes.starts_with(b"GET /a?q=x+y HTTP/1.1\r\n"));
}

#[test]
fn param_encodes_what_a_query_cannot_hold() {
    let mut request = Request::new("http://example.com/").unwrap();
    request.param("k&", "a=b/\u{e9}");
    assert_eq!(request.url().query(), Some("k%26=a%3Db%2F%C3%A9"));
}

#[test]
fn param_keeps_earlier_pairs() {
    let mut request = Request::new("http://example.com/a?x=1").unwrap();
    request.param("q", "1");
    request.param("q", "2");
    assert_eq!(request.url().query(), Some("x=1&q=1&q=2"));
    let bytes = written(&mut request);
    assert!(bytes.starts_with(b"GET /a?x=1&q=1&q=2 HTTP/1.1\r\n"));
}

#[test]
fn param_keeps_the_fragment_out_of_the_query() {
    let mut request = Request::new("http://example.com/a#part").unwrap();
    request.param("q", "1");
    assert_eq!(request.url().as_str(), "http://example.com/a?q=1#part");
    assert_eq!(request.url().query(), Some("q=1"));
}

#[test]
fn header_sets_a_value() {
    let mut request = Request::new("http://example.com/").unwrap();
    assert_eq!(request.header("accept", "text/html"), Ok(()));
    assert_eq!(request.headers().len(), 1);
    assert_eq!(request.headers().get("accept").unwrap().as_bytes(), b"text/html");
}

#[test]
fn header_replaces_all_values() {
    let mut request = Request::new("http://example.com/").unwrap();
    request.header_append("accept", "text/html").unwrap();
    request.header_append("accept", "text/plain").unwrap();
    request.header("accept", "*/*").unwrap();
    let values: Vec<&[u8]> = request.headers().get_all("accept").iter().map(|v| v.as_bytes()).collect();
    assert_eq!(values, vec![&b"*/*"[..]]);
}

#[test]
fn header_append_adds_a_value() {
    let mut request = Request::new("http://example.com/").unwrap();
    request.header("accept", "text/html").unwrap();
    request.header_append("accept", "text/plain").unwrap();
    let values: Vec<&[u8]> = request.headers().get_all("accept").iter().map(|v| v.as_bytes()).collect();
    assert_eq!(values, vec![&b"text/html"[..], &b"text/plain"[..]]);
    let bytes = written(&mut request);
    assert_eq!(
        text(&bytes),
        "GET / HTTP/1.1\r\naccept: text/html\r\naccept: text/plain\r\nconnection: close\r\nhost: example.com\r\n\r\n"
    );
}

#[test]
fn header_names_are_held_in_lower_case() {
    let mut request = Request::new("http://example.com/").unwrap();
    request.header("X-Token", "1").unwrap();
    request.header("x-token", "2").unwrap();
    assert_eq!(request.headers().len(), 1);
    let bytes = written(&mut request);
    assert_eq!(
        text(&bytes),
        "GET / HTTP/1.1\r\nx-token: 2\r\nconnection: close\r\nhost: example.com\r\n\r\n"
    );
}

#[test]
fn header_refuses_an_invalid_value() {
    let mut request = Request::new("http://example.com/").unwrap();
    request.header("accept", "text/html").unwrap();
    let refused = request.header("accept", "bad\nvalue");
    assert_eq!(refused, Err(HttpError::Header(HeaderFault::InvalidValue)));
    let refused = request.header_append("accept", "bad\u{7f}value");
    assert_eq!(refused, Err(HttpError::Header(HeaderFault::InvalidValue)));
    assert_eq!(request.headers().len(), 1);
    assert_eq!(request.headers().get("accept").unwrap().as_bytes(), b"text/html");
}

#[test]
fn header_refuses_an_invalid_name() {
    let mut request = Request::new("http://example.com/").unwrap();
    assert_eq!(request.header("bad name", "1"), Err(HttpError::Header(HeaderFault::InvalidName)));
    assert_eq!(request.header("", "1"), Err(HttpError::Header(HeaderFault::InvalidName)));
    assert_eq!(request.header("caf\u{e9}", "1"), Err(HttpError::Header(HeaderFault::InvalidName)));
    assert_eq!(request.header_append("a:b", "1"), Err(HttpError::Header(HeaderFault::InvalidName)));
    assert_eq!(request.headers().len(), 0);
}

#[test]
fn header_refuses_a_name_that_is_too_long() {
    let mut request = Request::new("http://example.com/").unwrap();
    let long = "a".repeat(65536);
    assert_eq!(request.header(&long, "1"), Err(HttpError::Header(HeaderFault::InvalidName)));
    let longest = "a".repeat(65535);
    assert_eq!(request.header(&longest, "1"), Ok(()));
}

#[test]
fn an_invalid_value_is_told_before_an_invalid_name() {
    let mut request = Request::new("http://example.com/").unwrap();
    assert_eq!(request.header("bad name", "bad\nvalue"), Err(HttpError::Header(HeaderFault::InvalidValue)));
}

#[test]
fn header_takes_bytes_that_are_no_text() {
    let mut request = Request::new("http://example.com/").unwrap();
    request.header("x-bin", &b"a\xfab"[..]).unwrap();
    let bytes = written(&mut request);
    assert_eq!(
        bytes,
        b"GET / HTTP/1.1\r\nx-bin: a\xfab\r\nconnection: close\r\nhost: example.com\r\n\r\n".to_vec()
    );
}

#[test]
fn header_takes_each_kind_of_value() {
    let mut request = Request::new("http://example.com/").unwrap();
    request.header("a", "1").unwrap();
    request.header("b", String::from("2")).unwrap();
    request.header("c", vec![b'3']).unwrap();
    request.header("d", &b"4"[..]).unwrap();
    request.header("e", FieldValue::from_bytes(b"5").unwrap()).unwrap();
    let bytes = written(&mut request);
    assert_eq!(
        text(&bytes),
        "GET / HTTP/1.1\r\na: 1\r\nb: 2\r\nc: 3\r\nd: 4\r\ne: 5\r\nconnection: close\r\nhost: example.com\r\n\r\n"
    );
}

#[test]
fn the_map_takes_no_name_beyond_its_limit() {
    let mut request = Request::new("http://example.com/").unwrap();
    for i in 0..32768 {
        assert_eq!(request.header(&format!("x-{}", i), "v"), Ok(()));
    }
    assert_eq!(request.headers().keys_len(), 32768);
    assert_eq!(request.header("one-more", "v"), Err(HttpError::Header(HeaderFault::TooManyNames)));
    assert_eq!(request.header_append("one-more", "v"), Err(HttpError::Header(HeaderFault::TooManyNames)));
    assert_eq!(request.header("x-7", "w"), Ok(()));
    assert_eq!(request.header_append("x-8", "w"), Ok(()));
    assert_eq!(request.headers().keys_len(), 32768);
    let url = request.url().clone();
    let refused = request.write_request(&url);
    assert_eq!(refused, Err(HttpError::Header(HeaderFault::TooManyNames)));
}

#[test]
fn redirect_sets_the_flag() {
    let mut request = Request::new("http://example.com/").unwrap();
    request.redirect(false);
    assert!(!request.follows_redirects());
    request.redirect(true);
    assert!(request.follows_redirects());
}

#[test]
fn default_encoding_is_kept() {
    let mut request = Request::new("http://example.com/").unwrap();
    request.default_encoding(Some(encoding_rs::WINDOWS_1252));
    assert_eq!(request.encoding(), Some(encoding_rs::WINDOWS_1252));
    request.default_encoding(None);
    assert_eq!(request.encoding(), None);
}

#[test]
fn a_request_is_written_byte_for_byte() {
    let mut request = Request::new("http://example.com/a").unwrap();
    let bytes = written(&mut request);
    assert_eq!(
        bytes,
        b"GET /a HTTP/1.1\r\nconnection: close\r\nhost: example.com\r\n\r\n".to_vec()
    );
}

#[test]
fn an_empty_query_is_left_out_of_the_request_line() {
    let mut request = Request::new("http://example.com/a?").unwrap();
    assert_eq!(request.url().query(), Some(""));
    let bytes = written(&mut request);
    assert!(bytes.starts_with(b"GET /a HTTP/1.1\r\n"));
}

#[test]
fn a_query_follows_the_path() {
    let mut request = Request::new("http://example.com/a/b?x=1&y=2#frag").unwrap();
    let bytes = written(&mut request);
    assert!(bytes.starts_with(b"GET /a/b?x=1&y=2 HTTP/1.1\r\n"));
}

#[test]
fn connection_is_always_close() {
    let mut request = Request::new("http://example.com/").unwrap();
    request.header("Connection", "keep-alive").unwrap();
    request.header_append("connection", "upgrade").unwrap();
    let bytes = written(&mut request);
    assert_eq!(
        text(&bytes),
        "GET / HTTP/1.1\r\nconnection: close\r\nhost: example.com\r\n\r\n"
    );
    let values: Vec<&[u8]> = request.headers().get_all("connection").iter().map(|v| v.as_bytes()).collect();
    assert_eq!(values, vec![&b"close"[..]]);
}

#[test]
fn host_is_set_over_what_the_caller_set() {
    let mut request = Request::new("http://example.com:8080/").unwrap();
    request.header("host", "other.example").unwrap();
    let bytes = written(&mut request);
    assert_eq!(
        text(&bytes),
        "GET / HTTP/1.1\r\nhost: example.com\r\nconnection: close\r\n\r\n"
    );
}

#[test]
fn an_address_gives_no_host_header() {
    let mut request = Request::new("http://127.0.0.1/").unwrap();
    let bytes = written(&mut request);
    assert_eq!(text(&bytes), "GET / HTTP/1.1\r\nconnection: close\r\n\r\n");
}

#[test]
fn the_headers_of_a_hop_stay_for_the_next() {
    let mut request = Request::new("http://example.com/").unwrap();
    written(&mut request);
    assert_eq!(request.headers().get("host").unwrap().as_bytes(), b"example.com");
    let address = request_engine::Url::parse("http://127.0.0.1/x").unwrap();
    let bytes = request.write_request(&address).unwrap();
    assert_eq!(
        text(&bytes),
        "GET /x HTTP/1.1\r\nconnection: close\r\nhost: example.com\r\n\r\n"
    );
    let other = request_engine::Url::parse("http://other.example/y").unwrap();
    let bytes = request.write_request(&other).unwrap();
    assert_eq!(
        text(&bytes),
        "GET /y HTTP/1.1\r\nconnection: close\r\nhost: other.example\r\n\r\n"
    );
}

#[test]
fn a_host_that_no_header_can_hold_fails_the_write() {
    for text in ["http://a\u{1}b/", "http://a\u{7f}b/"] {
        let mut request = Request::new(text).unwrap();
        let url = request.url().clone();
        assert_eq!(request.write_request(&url), Err(HttpError::Header(HeaderFault::InvalidValue)));
        let values: Vec<&[u8]> = request.headers().iter().map(|(_, v)| v.as_bytes()).collect();
        assert_eq!(values, vec![&b"close"[..]]);
    }
}

#[test]
fn a_header_keeps_its_place_among_the_others() {
    let mut request = Request::new("http://127.0.0.1/").unwrap();
    request.header("a", "1").unwrap();
    request.header("b", "2").unwrap();
    request.header("c", "3").unwrap();
    request.header_append("a", "4").unwrap();
    request.header("b", "5").unwrap();
    request.header_append("d", "6").unwrap();
    request.header_append("a", "7").unwrap();
    let bytes = written(&mut request);
    assert_eq!(
        text(&bytes),
        "GET / HTTP/1.1\r\na: 1\r\na: 4\r\na: 7\r\nb: 5\r\nc: 3\r\nd: 6\r\nconnection: close\r\n\r\n"
    );
    request.header("a", "8").unwrap();
    let bytes = written(&mut request);
    assert_eq!(
        text(&bytes),
        "GET / HTTP/1.1\r\na: 8\r\nb: 5\r\nc: 3\r\nd: 6\r\nconnection: close\r\n\r\n"
    );
}

#[test]
fn many_headers_keep_their_order() {
    let mut request = Request::new("http://127.0.0.1/").unwrap();
    let mut expected = String::from("GET / HTTP/1.1\r\n");
    for i in 0..3000 {
        request.header(&format!("x-name-{}", i), format!("{}", i)).unwrap();
        expected.push_str(&format!("x-name-{}: {}\r\n", i, i));
    }
    expected.push_str("connection: close\r\n\r\n");
    let bytes = written(&mut request);
    assert_eq!(text(&bytes), expected);
}

#[test]
fn a_name_may_hold_what_a_token_holds() {
    let mut request = Request::new("http://127.0.0.1/").unwrap();
    assert_eq!(request.header("!#$%&'*+-.^_`|~09azAZ", "1"), Ok(()));
    assert_eq!(request.header("with\"quote", "1"), Ok(()));
    for bad in ["a b", "a(b", "a)b", "a,b", "a/b", "a:b", "a;b", "a<b", "a=b", "a>b", "a?b", "a@b", "a[b", "a\\b", "a]b", "a{b", "a}b", "a\u{7f}b", "a\tb", "a\u{0}b"] {
        assert_eq!(request.header(bad, "1"), Err(HttpError::Header(HeaderFault::InvalidName)), "{:?}", bad);
    }
    let bytes = written(&mut request);
    assert!(text(&bytes).contains("!#$%&'*+-.^_`|~09azaz: 1\r\n"));
}

fn may_stand_in_a_name(b: u8) -> bool {
    b.is_ascii_alphanumeric() || b"!\"#$%&'*+-.^_`|~".contains(&b)
}

#[test]
fn every_byte_is_judged_for_a_name() {
    for b in 0u8..128 {
        let name = String::from_utf8(vec![b'x', b, b'y']).unwrap();
        let mut request = Request::new("http://127.0.0.1/").unwrap();
        let outcome = request.header(&name, "1");
        if may_stand_in_a_name(b) {
            assert_eq!(outcome, Ok(()), "{}", b);
            let lower = String::from_utf8(vec![b'x', b.to_ascii_lowercase(), b'y']).unwrap();
            let bytes = written(&mut request);
            assert_eq!(text(&bytes), format!("GET / HTTP/1.1\r\n{}: 1\r\nconnection: close\r\n\r\n", lower));
        } else {
            assert_eq!(outcome, Err(HttpError::Header(HeaderFault::InvalidName)), "{}", b);
        }
    }
}

#[test]
fn a_long_name_is_judged_as_a_short_one() {
    for b in 0u8..128 {
        let mut name = vec![b'x'; 70];
        name[35] = b;
        let name = String::from_utf8(name).unwrap();
        let mut request = Request::new("http://127.0.0.1/").unwrap();
        let outcome = request.header(&name, "1");
        if may_stand_in_a_name(b) {
            assert_eq!(outcome, Ok(()), "{}", b);
            let held: Vec<String> = request.headers().keys().map(|k| k.as_str().to_owned()).collect();
            assert_eq!(held, vec![name.to_ascii_lowercase()]);
        } else {
            assert_eq!(outcome, Err(HttpError::Header(HeaderFault::InvalidName)), "{}", b);
        }
    }
}

#[test]
fn every_byte_is_judged_for_a_value() {
    for b in 0u8..=255 {
        let mut request = Request::new("http://127.0.0.1/").unwrap();
        let outcome = request.header("x", vec![b'a', b, b'b']);
        if (b >= 32 && b != 127) || b == 9 {
            assert_eq!(outcome, Ok(()), "{}", b);
            assert_eq!(request.headers().get("x").unwrap().as_bytes(), &[b'a', b, b'b']);
        } else {
            assert_eq!(outcome, Err(HttpError::Header(HeaderFault::InvalidValue)), "{}", b);
        }
    }
}
