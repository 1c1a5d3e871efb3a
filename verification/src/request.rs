//! The request descriptor.

use vstd::prelude::*;
use vstd::string::StringSliceAdditionalSpecFns;
use vstd::utf8::encode_utf8;
use crate::error::{HeaderFault, HttpError, HttpResult, UrlFault};
use crate::headers::{
    appended, empty_map, fields, first_text, has, has_room, index_of, inserted,
    lemma_appended_well_formed, lemma_entry_is_found, lemma_fixed_headers, lemma_inserted_well_formed,
    lemma_lines_members, lemma_other_values, lines, lowered, map_append, map_insert, name_count,
    name_ok, valid_name, valid_value, values, well_formed, Fields, Headers, MAX_NAMES, NAME_LIMIT,
};
use crate::method::Method;
use crate::url::{url_parse, url_with_pair, Url, UrlView, PAIR_LIMIT};
use crate::value::{FieldValue, HttpTryInto};
use crate::wire::{message, render};

verus! {

/// The encoding of the `encoding_rs` crate. A request carries one to
/// whoever reads the response; the engine itself reads nothing of it.
#[verifier::external_type_specification]
#[verifier::external_body]
pub struct ExEncoding(encoding_rs::Encoding);

/// What becomes of the contents `f` of a header map when `value` is to
/// take the place of the values of `name`: the new contents, or the fault
/// that leaves the map as it is. The value is tested first, then the name,
/// then the room that the map has.
pub open spec fn set_outcome(f: Fields, name: Seq<u8>, value: Seq<u8>) -> Result<Fields, HeaderFault> {
    if !valid_value(value) {
        Err(HeaderFault::InvalidValue)
    } else if !valid_name(name) {
        Err(HeaderFault::InvalidName)
    } else if !has_room(f, lowered(name)) {
        Err(HeaderFault::TooManyNames)
    } else {
        Ok(inserted(f, lowered(name), value))
    }
}

/// What becomes of the contents `f` of a header map when `value` is to be
/// added to the values of `name`: the new contents, or the fault that
/// leaves the map as it is. The value is tested first, then the name, then
/// the room that the map has.
pub open spec fn add_outcome(f: Fields, name: Seq<u8>, value: Seq<u8>) -> Result<Fields, HeaderFault> {
    if !valid_value(value) {
        Err(HeaderFault::InvalidValue)
    } else if !valid_name(name) {
        Err(HeaderFault::InvalidName)
    } else if !has_room(f, lowered(name)) {
        Err(HeaderFault::TooManyNames)
    } else {
        Ok(appended(f, lowered(name), value))
    }
}

/// Converts `value` and tests `header`: the value, where the map `headers`
/// can take it under that name.
fn checked_header<V: HttpTryInto<FieldValue>>(headers: &Headers, header: &str, value: V) -> (r: Result<
    FieldValue,
    HeaderFault,
>)
    ensures
        match r {
            Ok(v) => {
                &&& v@ == value.offered()
                &&& valid_value(value.offered())
                &&& valid_name(header.spec_bytes())
                &&& has_room(fields(*headers), lowered(header.spec_bytes()))
            },
            Err(HeaderFault::InvalidValue) => !valid_value(value.offered()),
            Err(HeaderFault::InvalidName) => valid_value(value.offered()) && !valid_name(
                header.spec_bytes(),
            ),
            Err(HeaderFault::TooManyNames) => {
                &&& valid_value(value.offered())
                &&& valid_name(header.spec_bytes())
                &&& !has_room(fields(*headers), lowered(header.spec_bytes()))
            },
        },
{
    let value = match value.try_into() {
        Ok(value) => value,
        Err(_) => {
            return Err(HeaderFault::InvalidValue);
        },
    };
    let name = header.as_bytes();
    if name.len() >= NAME_LIMIT || !name_ok(name) {
        return Err(HeaderFault::InvalidName);
    }
    if name_count(headers) >= MAX_NAMES && first_text(headers, header).is_none() {
        return Err(HeaderFault::TooManyNames);
    }
    Ok(value)
}

/// Sets the header `header` of `headers` to `value`, in place of the values
/// it has.
pub fn header_insert<V: HttpTryInto<FieldValue>>(headers: &mut Headers, header: &str, value: V) -> (r:
    HttpResult)
    ensures
        match set_outcome(fields(*old(headers)), header.spec_bytes(), value.offered()) {
            Ok(f) => r is Ok && fields(*final(headers)) == f,
            Err(e) => r == Err::<(), HttpError>(HttpError::Header(e)) && fields(*final(headers))
                == fields(*old(headers)),
        },
        well_formed(fields(*old(headers))) ==> well_formed(fields(*final(headers))),
{
    match checked_header(headers, header, value) {
        Ok(value) => {
            proof {
                if well_formed(fields(*headers)) {
                    lemma_inserted_well_formed(
                        fields(*headers),
                        lowered(header.spec_bytes()),
                        value@,
                    );
                }
            }
            map_insert(headers, header.as_bytes(), value.as_bytes());
            Ok(())
        },
        Err(e) => Err(HttpError::Header(e)),
    }
}

/// Adds `value` to the values of the header `header` of `headers`.
pub fn header_append<V: HttpTryInto<FieldValue>>(headers: &mut Headers, header: &str, value: V) -> (r:
    HttpResult)
    ensures
        match add_outcome(fields(*old(headers)), header.spec_bytes(), value.offered()) {
            Ok(f) => r is Ok && fields(*final(headers)) == f,
            Err(e) => r == Err::<(), HttpError>(HttpError::Header(e)) && fields(*final(headers))
                == fields(*old(headers)),
        },
        well_formed(fields(*old(headers))) ==> well_formed(fields(*final(headers))),
{
    match checked_header(headers, header, value) {
        Ok(value) => {
            proof {
                if well_formed(fields(*headers)) {
                    lemma_appended_well_formed(
                        fields(*headers),
                        lowered(header.spec_bytes()),
                        value@,
                    );
                }
            }
            map_append(headers, header.as_bytes(), value.as_bytes());
            Ok(())
        },
        Err(e) => Err(HttpError::Header(e)),
    }
}

/// What becomes of the contents `f` of a request's header map when a hop
/// to `url` is written: the contents after it, and the fault, if there is
/// one. The header `connection` is set to `close`, whatever the caller set;
/// then, where the host of `url` is a domain, the header `host` is set to
/// it. A fault ends this, and what was set before it stays.
pub open spec fn prepared(f: Fields, url: UrlView) -> (Fields, Result<(), HeaderFault>) {
    match set_outcome(f, "connection".spec_bytes(), "close".spec_bytes()) {
        Err(e) => (f, Err(e)),
        Ok(closing) => match url.domain {
            None => (closing, Ok(())),
            Some(domain) => match set_outcome(closing, "host".spec_bytes(), encode_utf8(domain)) {
                Err(e) => (closing, Err(e)),
                Ok(hosted) => (hosted, Ok(())),
            },
        },
    }
}

/// Whatever the caller has set, a request that is written carries the
/// header `connection` once, and its value is `close`.
pub proof fn law_connection_close(f: Fields, url: UrlView)
    requires
        well_formed(f),
        prepared(f, url).1 is Ok,
    ensures
        values(prepared(f, url).0, "connection".spec_bytes()) == seq!["close".spec_bytes()],
        lines(prepared(f, url).0).contains(("connection".spec_bytes(), "close".spec_bytes())),
        forall|line: (Seq<u8>, Seq<u8>)|
            #![trigger lines(prepared(f, url).0).contains(line)]
            lines(prepared(f, url).0).contains(line) && line.0 == "connection".spec_bytes() ==> line.1
                == "close".spec_bytes(),
{
    lemma_fixed_headers();
    let name = "connection".spec_bytes();
    let close = "close".spec_bytes();
    let closing = set_outcome(f, name, close)->Ok_0;
    lemma_inserted_well_formed(f, name, close);
    let g = prepared(f, url).0;
    assert(well_formed(g) && values(g, name) == seq![close]) by {
        match url.domain {
            None => {},
            Some(domain) => {
                let host = "host".spec_bytes();
                let d = encode_utf8(domain);
                lemma_inserted_well_formed(closing, host, d);
                lemma_other_values(closing, host, d, name);
            },
        }
    }
    assert(has(g, name));
    lemma_entry_is_found(g, name);
    let i = index_of(g, name);
    assert(g[i].1 == seq![close]);
    assert(g[i].1[0] == close);
    lemma_lines_members(g, (name, close));
    assert forall|line: (Seq<u8>, Seq<u8>)|
        lines(g).contains(line) && line.0 == name implies line.1 == close by {
        lemma_lines_members(g, line);
        let (a, b) = choose|a: int, b: int|
            0 <= a < g.len() && 0 <= b < g[a].1.len() && line == (g[a].0, #[trigger] g[a].1[b]);
        assert(a == i);
    }
}

/// The header `host` of one hop stays for a later hop whose URL has no
/// domain: a hop sets it, and no hop takes it away.
pub proof fn law_host_stays(f: Fields, url: UrlView)
    requires
        well_formed(f),
        prepared(f, url).1 is Ok,
        url.domain is None,
    ensures
        values(prepared(f, url).0, "host".spec_bytes()) == values(f, "host".spec_bytes()),
{
    lemma_fixed_headers();
    lemma_other_values(f, "connection".spec_bytes(), "close".spec_bytes(), "host".spec_bytes());
}

/// A hop to a URL with a domain carries the header `host` once, and its
/// value is the domain.
pub proof fn law_host_is_the_domain(f: Fields, url: UrlView)
    requires
        well_formed(f),
        prepared(f, url).1 is Ok,
        url.domain is Some,
    ensures
        values(prepared(f, url).0, "host".spec_bytes()) == seq![encode_utf8(url.domain->0)],
{
    lemma_fixed_headers();
    let closing = set_outcome(f, "connection".spec_bytes(), "close".spec_bytes())->Ok_0;
    lemma_inserted_well_formed(f, "connection".spec_bytes(), "close".spec_bytes());
    lemma_inserted_well_formed(closing, "host".spec_bytes(), encode_utf8(url.domain->0));
}

/// Sets in `headers` what every hop to `url` carries.
fn prepare(headers: &mut Headers, url: &Url) -> (r: HttpResult)
    ensures
        fields(*final(headers)) == prepared(fields(*old(headers)), url@).0,
        match prepared(fields(*old(headers)), url@).1 {
            Ok(()) => r is Ok,
            Err(e) => r == Err::<(), HttpError>(HttpError::Header(e)),
        },
        well_formed(fields(*old(headers))) ==> well_formed(fields(*final(headers))),
{
    match header_insert(headers, "connection", "close") {
        Ok(()) => {},
        Err(e) => {
            return Err(e);
        },
    }
    match url.domain() {
        Some(domain) => header_insert(headers, "host", domain),
        None => Ok(()),
    }
}

/// A request: where it goes, how it asks, and what it carries.
pub struct Request {
    url: Url,
    method: Method,
    headers: Headers,
    redirect: bool,
    default_encoding: Option<&'static encoding_rs::Encoding>,
}

/// The value of a [`Request`].
pub struct RequestView {
    /// The URL that the request is for.
    pub url: UrlView,
    /// The method.
    pub method: Method,
    /// The headers.
    pub headers: Fields,
    /// Whether redirections are followed.
    pub redirect: bool,
    /// The encoding to read a response in that names none.
    pub default_encoding: Option<&'static encoding_rs::Encoding>,
}

impl View for Request {
    type V = RequestView;

    closed spec fn view(&self) -> RequestView {
        RequestView {
            url: self.url@,
            method: self.method,
            headers: fields(self.headers),
            redirect: self.redirect,
            default_encoding: self.default_encoding,
        }
    }
}

impl Request {
    #[verifier::type_invariant]
    spec fn sound(self) -> bool {
        well_formed(fields(self.headers))
    }

    /// The request that [`Request::new`] makes for a URL.
    pub open spec fn fresh(url: UrlView) -> RequestView {
        RequestView {
            url,
            method: Method::Get,
            headers: Seq::empty(),
            redirect: true,
            default_encoding: None,
        }
    }

    /// A `GET` request for `base_url`, without headers, that follows
    /// redirections. It is refused where `base_url` is no absolute URL.
    pub fn new(base_url: &str) -> (r: HttpResult<Request>)
        ensures
            match r {
                Ok(request) => url_parse(base_url@) is Ok && request@ == Request::fresh(
                    url_parse(base_url@)->Ok_0,
                ),
                Err(e) => url_parse(base_url@) is Err && e == HttpError::InvalidUrl(UrlFault::Unparsable),
            },
    {
        match Url::parse(base_url) {
            Ok(url) => Ok(
                Request {
                    url,
                    method: Method::Get,
                    headers: empty_map(),
                    redirect: true,
                    default_encoding: None,
                },
            ),
            Err(_) => Err(HttpError::InvalidUrl(UrlFault::Unparsable)),
        }
    }

    /// Sets the method.
    pub fn method(&mut self, method: Method)
        ensures
            final(self)@ == (RequestView { method, ..old(self)@ }),
    {
        proof {
            use_type_invariant(&*self);
        }
        self.method = method;
    }

    /// Adds the pair `key=value` to the query of the URL, percent-encoded
    /// as a form is. Earlier pairs stay, also those with the same key. The
    /// URL, the key and the value are each at most [`PAIR_LIMIT`] bytes long.
    pub fn param(&mut self, key: &str, value: &str)
        requires
            encode_utf8(old(self)@.url.href).len() <= PAIR_LIMIT,
            key.spec_bytes().len() <= PAIR_LIMIT,
            value.spec_bytes().len() <= PAIR_LIMIT,
        ensures
            final(self)@ == (RequestView {
                url: match url_with_pair(old(self)@.url.href, key@, value@) {
                    Some(url) => url,
                    None => old(self)@.url,
                },
                ..old(self)@
            }),
    {
        proof {
            use_type_invariant(&*self);
        }
        match self.url.with_query_pair(key, value) {
            Some(url) => {
                self.url = url;
            },
            None => {},
        }
    }

    /// Sets the header `header` to `value`, in place of the values it has.
    pub fn header<V: HttpTryInto<FieldValue>>(&mut self, header: &str, value: V) -> (r: HttpResult)
        ensures
            match set_outcome(old(self)@.headers, header.spec_bytes(), value.offered()) {
                Ok(f) => r is Ok && final(self)@ == (RequestView { headers: f, ..old(self)@ }),
                Err(e) => r == Err::<(), HttpError>(HttpError::Header(e)) && final(self)@ == old(
                    self,
                )@,
            },
    {
        proof {
            use_type_invariant(&*self);
        }
        let mut headers = empty_map();
        core::mem::swap(&mut self.headers, &mut headers);
        let r = header_insert(&mut headers, header, value);
        self.headers = headers;
        r
    }

    /// Adds `value` to the values of the header `header`.
    pub fn header_append<V: HttpTryInto<FieldValue>>(&mut self, header: &str, value: V) -> (r:
        HttpResult)
        ensures
            match add_outcome(old(self)@.headers, header.spec_bytes(), value.offered()) {
                Ok(f) => r is Ok && final(self)@ == (RequestView { headers: f, ..old(self)@ }),
                Err(e) => r == Err::<(), HttpError>(HttpError::Header(e)) && final(self)@ == old(
                    self,
                )@,
            },
    {
        proof {
            use_type_invariant(&*self);
        }
        let mut headers = empty_map();
        core::mem::swap(&mut self.headers, &mut headers);
        let r = header_append(&mut headers, header, value);
        self.headers = headers;
        r
    }

    /// Sets whether redirections are followed.
    pub fn redirect(&mut self, redirect: bool)
        ensures
            final(self)@ == (RequestView { redirect, ..old(self)@ }),
    {
        proof {
            use_type_invariant(&*self);
        }
        self.redirect = redirect;
    }

    /// Sets the encoding to read a response in that names none.
    pub fn default_encoding(&mut self, default_encoding: Option<&'static encoding_rs::Encoding>)
        ensures
            final(self)@ == (RequestView { default_encoding, ..old(self)@ }),
    {
        proof {
            use_type_invariant(&*self);
        }
        self.default_encoding = default_encoding;
    }

    /// The bytes of the request for a hop to `url`: the request line, the
    /// headers and an empty line. The headers that every hop carries are set
    /// in the request itself, and stay set for the hops that follow.
    pub fn write_request(&mut self, url: &Url) -> (r: HttpResult<Vec<u8>>)
        ensures
            final(self)@ == (RequestView {
                headers: prepared(old(self)@.headers, url@).0,
                ..old(self)@
            }),
            match prepared(old(self)@.headers, url@).1 {
                Ok(()) => r is Ok && r->Ok_0@ == message(
                    old(self)@.method,
                    url@,
                    final(self)@.headers,
                ),
                Err(e) => r is Err && r->Err_0 == HttpError::Header(e),
            },
            r is Ok ==> values(final(self)@.headers, "connection".spec_bytes()) == seq![
                "close".spec_bytes(),
            ],
    {
        proof {
            use_type_invariant(&*self);
            if prepared(self@.headers, url@).1 is Ok {
                law_connection_close(self@.headers, url@);
            }
        }
        let mut headers = empty_map();
        core::mem::swap(&mut self.headers, &mut headers);
        let r = match prepare(&mut headers, url) {
            Ok(()) => Ok(render(self.method, url, &headers)),
            Err(e) => Err(e),
        };
        self.headers = headers;
        r
    }

    /// The URL that the request is for.
    pub fn url(&self) -> (r: &Url)
        ensures
            r@ == self@.url,
    {
        &self.url
    }

    /// The method.
    pub fn verb(&self) -> (r: Method)
        ensures
            r == self@.method,
    {
        self.method
    }

    /// Whether redirections are followed.
    pub fn follows_redirects(&self) -> (r: bool)
        ensures
            r == self@.redirect,
    {
        self.redirect
    }

    /// The encoding to read a response in that names none.
    pub fn encoding(&self) -> (r: Option<&'static encoding_rs::Encoding>)
        ensures
            r == self@.default_encoding,
    {
        self.default_encoding
    }

    /// The headers.
    pub fn headers(&self) -> (r: &Headers)
        ensures
            fields(*r) == self@.headers,
            well_formed(fields(*r)),
    {
        proof {
            use_type_invariant(self);
        }
        &self.headers
    }
}

} // verus!
