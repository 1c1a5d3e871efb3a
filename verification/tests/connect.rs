use request_engine::{Endpoint, HttpError, Request, Transport, Url, UrlFault};

fn endpoint(url: &str) -> Result<Endpoint, HttpError> {
    let request = Request::new("http://unused.example/").unwrap();
    request.connect(&Url::parse(url).unwrap())
}

#[test]
fn http_takes_a_plain_stream() {
    let endpoint = endpoint("http://example.com/a").unwrap();
    assert_eq!(endpoint.transport, Transport::Plain);
    assert_eq!(endpoint.host, "example.com");
    assert_eq!(endpoint.port, 80);
}

#[test]
fn https_takes_an_encrypted_stream() {
    let endpoint = endpoint("https://example.com/a").unwrap();
    assert_eq!(endpoint.transport, Transport::Encrypted);
    assert_eq!(endpoint.host, "example.com");
    assert_eq!(endpoint.port, 443);
}

#[test]
fn a_given_port_is_taken() {
    let endpoint = endpoint("http://example.com:8080/").unwrap();
    assert_eq!(endpoint.transport, Transport::Plain);
    assert_eq!(endpoint.port, 8080);
    let endpoint = endpoint_of_https_with_port();
    assert_eq!(endpoint.transport, Transport::Encrypted);
    assert_eq!(endpoint.port, 8443);
}

fn endpoint_of_https_with_port() -> Endpoint {
    endpoint("https://example.com:8443/").unwrap()
}

#[test]
fn an_address_is_a_host() {
    let endpoint = endpoint("http://127.0.0.1:3000/").unwrap();
    assert_eq!(endpoint.host, "127.0.0.1");
    assert_eq!(endpoint.port, 3000);
    let endpoint = self::endpoint("http://[::1]/").unwrap();
    assert_eq!(endpoint.host, "[::1]");
    assert_eq!(endpoint.port, 80);
}

#[test]
fn a_url_without_host_is_refused() {
    let refused = endpoint("mailto:someone@example.com");
    assert!(matches!(refused, Err(HttpError::InvalidUrl(UrlFault::NoHost))));
    let refused = endpoint("data:text/plain,hello");
    assert!(matches!(refused, Err(HttpError::InvalidUrl(UrlFault::NoHost))));
}

#[test]
fn a_url_without_port_is_refused() {
    let refused = endpoint("foo://example.com/");
    assert!(matches!(refused, Err(HttpError::InvalidUrl(UrlFault::NoPort))));
}

#[test]
fn another_scheme_is_refused() {
    let refused = endpoint("foo://example.com:99/");
    assert!(matches!(refused, Err(HttpError::InvalidUrl(UrlFault::UnsupportedScheme))));
    let refused = endpoint("ftp://example.com/");
    assert!(matches!(refused, Err(HttpError::InvalidUrl(UrlFault::UnsupportedScheme))));
    let refused = endpoint("ws://example.com/");
    assert!(matches!(refused, Err(HttpError::InvalidUrl(UrlFault::UnsupportedScheme))));
}

#[test]
fn the_host_is_asked_for_before_the_scheme() {
    let refused = endpoint("unix:/run/foo.socket");
    assert!(matches!(refused, Err(HttpError::InvalidUrl(UrlFault::NoHost))));
}
