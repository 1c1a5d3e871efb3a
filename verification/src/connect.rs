//! Where a hop connects to.

use vstd::prelude::*;
use crate::error::{HttpError, HttpResult, UrlFault};
use crate::request::Request;
use crate::text::same_text;
use crate::url::{Url, UrlView};

verus! {

/// The kind of stream that carries a hop.
#[derive(Clone, Copy, Debug, PartialEq, Eq, Structural)]
pub enum Transport {
    /// A plain stream.
    Plain,
    /// An encrypted stream around a plain one.
    Encrypted,
}

/// The endpoint of a hop: what to connect to, and how.
#[derive(Debug)]
pub struct Endpoint {
    /// The kind of stream to open.
    pub transport: Transport,
    /// The host to connect to.
    pub host: String,
    /// The port to connect to.
    pub port: u16,
}

/// The value of an [`Endpoint`].
pub struct EndpointView {
    pub transport: Transport,
    pub host: Seq<char>,
    pub port: u16,
}

impl View for Endpoint {
    type V = EndpointView;

    open spec fn view(&self) -> EndpointView {
        EndpointView { transport: self.transport, host: self.host@, port: self.port }
    }
}

/// The endpoint for `url`. The host is asked for first, then the port, then
/// the scheme: `http` takes a plain stream and `https` an encrypted one.
pub open spec fn endpoint_of(url: UrlView) -> Result<EndpointView, HttpError> {
    match (url.host, url.port) {
        (None, _) => Err(HttpError::InvalidUrl(UrlFault::NoHost)),
        (Some(_), None) => Err(HttpError::InvalidUrl(UrlFault::NoPort)),
        (Some(host), Some(port)) => if url.scheme == "http"@ {
            Ok(EndpointView { transport: Transport::Plain, host, port })
        } else if url.scheme == "https"@ {
            Ok(EndpointView { transport: Transport::Encrypted, host, port })
        } else {
            Err(HttpError::InvalidUrl(UrlFault::UnsupportedScheme))
        },
    }
}

impl Request {
    /// The endpoint to connect to for a hop to `url`.
    pub fn connect(&self, url: &Url) -> (r: HttpResult<Endpoint>)
        ensures
            match r {
                Ok(endpoint) => endpoint_of(url@) == Ok::<EndpointView, HttpError>(endpoint@),
                Err(e) => endpoint_of(url@) == Err::<EndpointView, HttpError>(e),
            },
    {
        let host = match url.host_str() {
            Some(host) => host,
            None => {
                return Err(HttpError::InvalidUrl(UrlFault::NoHost));
            },
        };
        let port = match url.port_or_known_default() {
            Some(port) => port,
            None => {
                return Err(HttpError::InvalidUrl(UrlFault::NoPort));
            },
        };
        let transport = if same_text(url.scheme(), "http") {
            Transport::Plain
        } else if same_text(url.scheme(), "https") {
            Transport::Encrypted
        } else {
            return Err(HttpError::InvalidUrl(UrlFault::UnsupportedScheme));
        };
        Ok(Endpoint { transport, host: host.to_owned(), port })
    }
}

} // verus!
