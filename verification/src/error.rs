//! The errors of the engine.

use vstd::prelude::*;

verus! {

/// Why a URL cannot be used.
#[derive(Clone, Copy, Debug, PartialEq, Eq, Structural)]
pub enum UrlFault {
    /// The text given for a new request is not an absolute URL.
    Unparsable,
    /// The URL names no host to connect to.
    NoHost,
    /// The URL gives no port and its scheme has no well-known one.
    NoPort,
    /// The scheme is neither `http` nor `https`.
    UnsupportedScheme,
    /// A relative redirection cannot be joined with the URL it came from.
    CannotJoin,
    /// A redirection is neither an absolute URL nor a relative one.
    InvalidRedirection,
}

/// Why a response cannot be acted on.
#[derive(Clone, Copy, Debug, PartialEq, Eq, Structural)]
pub enum ResponseFault {
    /// A redirection carries no `Location` header.
    NoLocation,
    /// The `Location` header of a redirection is not visible ASCII text.
    LocationNotText,
}

/// Why a header cannot be stored.
#[derive(Clone, Copy, Debug, PartialEq, Eq, Structural)]
pub enum HeaderFault {
    /// The name is empty, too long, or holds a byte that no header name may hold.
    InvalidName,
    /// The value holds a byte that no header value may hold.
    InvalidValue,
    /// The header map holds as many names as it can.
    TooManyNames,
}

/// An error of the engine.
#[derive(Clone, Copy, Debug, PartialEq, Eq, Structural)]
pub enum HttpError {
    InvalidUrl(UrlFault),
    InvalidResponse(ResponseFault),
    Header(HeaderFault),
}

/// The result of an operation of the engine.
pub type HttpResult<T = ()> = Result<T, HttpError>;

impl HttpError {
    /// The text of [`HttpError::message`].
    pub open spec fn text(self) -> Seq<char> {
        match self {
            HttpError::InvalidUrl(UrlFault::Unparsable) => "invalid url"@,
            HttpError::InvalidUrl(UrlFault::NoHost) => "url has no host"@,
            HttpError::InvalidUrl(UrlFault::NoPort) => "url has no port"@,
            HttpError::InvalidUrl(UrlFault::UnsupportedScheme) => "url contains unsupported scheme"@,
            HttpError::InvalidUrl(UrlFault::CannotJoin) => "cannot join location with new url"@,
            HttpError::InvalidUrl(UrlFault::InvalidRedirection) => "invalid redirection url"@,
            HttpError::InvalidResponse(ResponseFault::NoLocation) => "redirect has no location header"@,
            HttpError::InvalidResponse(ResponseFault::LocationNotText) => "location to str error"@,
            HttpError::Header(HeaderFault::InvalidName) => "invalid header name"@,
            HttpError::Header(HeaderFault::InvalidValue) => "invalid header value"@,
            HttpError::Header(HeaderFault::TooManyNames) => "header map at capacity"@,
        }
    }

    /// A short description of the error.
    pub fn message(&self) -> (r: &'static str)
        ensures
            r@ == self.text(),
    {
        match self {
            HttpError::InvalidUrl(UrlFault::Unparsable) => "invalid url",
            HttpError::InvalidUrl(UrlFault::NoHost) => "url has no host",
            HttpError::InvalidUrl(UrlFault::NoPort) => "url has no port",
            HttpError::InvalidUrl(UrlFault::UnsupportedScheme) => "url contains unsupported scheme",
            HttpError::InvalidUrl(UrlFault::CannotJoin) => "cannot join location with new url",
            HttpError::InvalidUrl(UrlFault::InvalidRedirection) => "invalid redirection url",
            HttpError::InvalidResponse(ResponseFault::NoLocation) => "redirect has no location header",
            HttpError::InvalidResponse(ResponseFault::LocationNotText) => "location to str error",
            HttpError::Header(HeaderFault::InvalidName) => "invalid header name",
            HttpError::Header(HeaderFault::InvalidValue) => "invalid header value",
            HttpError::Header(HeaderFault::TooManyNames) => "header map at capacity",
        }
    }
}

} // verus!
