//! URLs: what the engine reads of a URL, and the operations on URLs that it
//! leaves to the `url` crate.
//!
//! A [`Url`] holds the serialization of a URL and, as plain values, the
//! components that the engine reads. What the parser makes of a text takes
//! pages to state, so the contracts here name it: [`url_parse`], [`url_join`]
//! and [`url_with_pair`].
//!
//! A URL is handed to the `url` crate by its serialization, which that crate
//! parses again.

use vstd::prelude::*;
use vstd::string::StringSliceAdditionalSpecFns;
use vstd::utf8::encode_utf8;

verus! {

/// Why a text is not a URL.
#[derive(Clone, Copy, Debug, PartialEq, Eq, Structural)]
pub enum ParseFault {
    /// The text is a relative reference, and there is no base to read it against.
    RelativeWithoutBase,
    /// Any other fault.
    Other,
}

/// The longest URL, key or value, in bytes, that [`Url::with_query_pair`] takes.
pub const PAIR_LIMIT: usize = 0x100_0000;

/// What `url::Url::parse` makes of `text`: the URL, as the engine reads it,
/// or the fault.
pub uninterp spec fn url_parse(text: Seq<char>) -> Result<UrlView, ParseFault>;

/// What `url::Url::join` makes of `reference` when it is called on the URL
/// that `base` parses to: the URL, or the fault of the parse or of the join.
pub uninterp spec fn url_join(base: Seq<char>, reference: Seq<char>) -> Result<UrlView, ParseFault>;

/// The URL that `href` parses to, after `append_pair(key, value)` on its
/// `query_pairs_mut()`; `None` where `href` does not parse.
pub uninterp spec fn url_with_pair(href: Seq<char>, key: Seq<char>, value: Seq<char>) -> Option<UrlView>;

/// A URL: its serialization, and the components that the engine reads.
#[derive(Debug)]
pub struct Url {
    href: String,
    scheme: String,
    host: Option<String>,
    domain: Option<String>,
    port: Option<u16>,
    path: String,
    query: Option<String>,
}

/// The value of a [`Url`].
pub struct UrlView {
    /// The serialization.
    pub href: Seq<char>,
    /// The scheme, without the colon.
    pub scheme: Seq<char>,
    /// The host, where there is one.
    pub host: Option<Seq<char>>,
    /// The host again, where it is a domain name and no address.
    pub domain: Option<Seq<char>>,
    /// The port: the one given, else the well-known one of the scheme.
    pub port: Option<u16>,
    /// The path.
    pub path: Seq<char>,
    /// The query, without the question mark.
    pub query: Option<Seq<char>>,
}

/// Calls `url::Url::parse`, and copies out of the URL it gives what
/// `as_str`, `scheme`, `host_str`, `domain`, `port_or_known_default`, `path`
/// and `query` give. The fault says only whether the parser found a relative
/// reference without a base, or anything else. Nothing is proved of the
/// parser: the contract names its result.
#[verifier::external_body]
fn parse_url(text: &str) -> (r: Result<Url, ParseFault>)
    ensures
        match r {
            Ok(url) => url_parse(text@) == Ok::<UrlView, ParseFault>(url@),
            Err(fault) => url_parse(text@) == Err::<UrlView, ParseFault>(fault),
        },
{
    match url::Url::parse(text) {
        Ok(url) => Ok(Url {
            href: url.as_str().to_owned(),
            scheme: url.scheme().to_owned(),
            host: url.host_str().map(str::to_owned),
            domain: url.domain().map(str::to_owned),
            port: url.port_or_known_default(),
            path: url.path().to_owned(),
            query: url.query().map(str::to_owned),
        }),
        Err(url::ParseError::RelativeUrlWithoutBase) => Err(ParseFault::RelativeWithoutBase),
        Err(_) => Err(ParseFault::Other),
    }
}

/// Calls `url::Url::join` on the URL that `base` parses to, and copies out
/// of the URL it gives what the same accessors give. Nothing is proved of
/// the join: the contract names its result.
#[verifier::external_body]
fn join_url(base: &str, reference: &str) -> (r: Result<Url, ParseFault>)
    ensures
        match r {
            Ok(url) => url_join(base@, reference@) == Ok::<UrlView, ParseFault>(url@),
            Err(fault) => url_join(base@, reference@) == Err::<UrlView, ParseFault>(fault),
        },
{
    match url::Url::parse(base).and_then(|base| base.join(reference)) {
        Ok(url) => Ok(Url {
            href: url.as_str().to_owned(),
            scheme: url.scheme().to_owned(),
            host: url.host_str().map(str::to_owned),
            domain: url.domain().map(str::to_owned),
            port: url.port_or_known_default(),
            path: url.path().to_owned(),
            query: url.query().map(str::to_owned),
        }),
        Err(url::ParseError::RelativeUrlWithoutBase) => Err(ParseFault::RelativeWithoutBase),
        Err(_) => Err(ParseFault::Other),
    }
}

/// Calls `append_pair` on the `query_pairs_mut()` of the URL that `href`
/// parses to, and copies out of the URL after it what the same accessors
/// give. The `url` crate keeps its offsets in 32 bits and does not expect a
/// longer URL here: the bound keeps far below that. The contract names the
/// result.
#[verifier::external_body]
fn pair_url(href: &str, key: &str, value: &str) -> (r: Option<Url>)
    requires
        href.spec_bytes().len() <= PAIR_LIMIT,
        key.spec_bytes().len() <= PAIR_LIMIT,
        value.spec_bytes().len() <= PAIR_LIMIT,
    ensures
        match r {
            Some(url) => url_with_pair(href@, key@, value@) == Some(url@),
            None => url_with_pair(href@, key@, value@) is None,
        },
{
    let mut url = url::Url::parse(href).ok()?;
    url.query_pairs_mut().append_pair(key, value);
    Some(Url {
        href: url.as_str().to_owned(),
        scheme: url.scheme().to_owned(),
        host: url.host_str().map(str::to_owned),
        domain: url.domain().map(str::to_owned),
        port: url.port_or_known_default(),
        path: url.path().to_owned(),
        query: url.query().map(str::to_owned),
    })
}

/// The text in `text`, where there is one.
pub open spec fn text_view(text: Option<String>) -> Option<Seq<char>> {
    match text {
        Some(t) => Some(t@),
        None => None,
    }
}

fn copy_text(text: &Option<String>) -> (r: Option<String>)
    ensures
        text_view(r) == text_view(*text),
{
    match text {
        Some(t) => Some(t.clone()),
        None => None,
    }
}

fn borrow_text(text: &Option<String>) -> (r: Option<&str>)
    ensures
        match r {
            Some(t) => text_view(*text) == Some(t@),
            None => text_view(*text) is None,
        },
{
    match text {
        Some(t) => Some(t.as_str()),
        None => None,
    }
}

impl View for Url {
    type V = UrlView;

    closed spec fn view(&self) -> UrlView {
        UrlView {
            href: self.href@,
            scheme: self.scheme@,
            host: text_view(self.host),
            domain: text_view(self.domain),
            port: self.port,
            path: self.path@,
            query: text_view(self.query),
        }
    }
}

impl Clone for Url {
    fn clone(&self) -> (r: Url)
        ensures
            r@ == self@,
    {
        Url {
            href: self.href.clone(),
            scheme: self.scheme.clone(),
            host: copy_text(&self.host),
            domain: copy_text(&self.domain),
            port: self.port,
            path: self.path.clone(),
            query: copy_text(&self.query),
        }
    }
}

impl Url {
    /// Parses an absolute URL.
    pub fn parse(text: &str) -> (r: Result<Url, ParseFault>)
        ensures
            match r {
                Ok(url) => url_parse(text@) == Ok::<UrlView, ParseFault>(url@),
                Err(fault) => url_parse(text@) == Err::<UrlView, ParseFault>(fault),
            },
    {
        parse_url(text)
    }

    /// Reads `reference` against this URL: an absolute URL stands for
    /// itself, a relative one is resolved.
    pub fn join(&self, reference: &str) -> (r: Result<Url, ParseFault>)
        ensures
            match r {
                Ok(url) => url_join(self@.href, reference@) == Ok::<UrlView, ParseFault>(url@),
                Err(fault) => url_join(self@.href, reference@) == Err::<UrlView, ParseFault>(fault),
            },
    {
        join_url(self.href.as_str(), reference)
    }

    /// This URL with the pair `key=value` appended to its query,
    /// percent-encoded as a form is. `None` where the serialization of this
    /// URL does not parse.
    pub fn with_query_pair(&self, key: &str, value: &str) -> (r: Option<Url>)
        requires
            encode_utf8(self@.href).len() <= PAIR_LIMIT,
            key.spec_bytes().len() <= PAIR_LIMIT,
            value.spec_bytes().len() <= PAIR_LIMIT,
        ensures
            match r {
                Some(url) => url_with_pair(self@.href, key@, value@) == Some(url@),
                None => url_with_pair(self@.href, key@, value@) is None,
            },
    {
        pair_url(self.href.as_str(), key, value)
    }

    /// The serialization.
    pub fn as_str(&self) -> (r: &str)
        ensures
            r@ == self@.href,
    {
        self.href.as_str()
    }

    /// The scheme, without the colon.
    pub fn scheme(&self) -> (r: &str)
        ensures
            r@ == self@.scheme,
    {
        self.scheme.as_str()
    }

    /// The host, where there is one.
    pub fn host_str(&self) -> (r: Option<&str>)
        ensures
            match r {
                Some(host) => self@.host == Some(host@),
                None => self@.host is None,
            },
    {
        borrow_text(&self.host)
    }

    /// The host, where it is a domain name and no address.
    pub fn domain(&self) -> (r: Option<&str>)
        ensures
            match r {
                Some(domain) => self@.domain == Some(domain@),
                None => self@.domain is None,
            },
    {
        borrow_text(&self.domain)
    }

    /// The port: the one given, else the well-known one of the scheme.
    pub fn port_or_known_default(&self) -> (r: Option<u16>)
        ensures
            r == self@.port,
    {
        self.port
    }

    /// The path.
    pub fn path(&self) -> (r: &str)
        ensures
            r@ == self@.path,
    {
        self.path.as_str()
    }

    /// The query, without the question mark.
    pub fn query(&self) -> (r: Option<&str>)
        ensures
            match r {
                Some(query) => self@.query == Some(query@),
                None => self@.query is None,
            },
    {
        borrow_text(&self.query)
    }
}

} // verus!
