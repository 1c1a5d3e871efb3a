//! An outbound HTTP/1.1 request engine.
//!
//! A [`Request`] describes one request: its URL, its method, its headers,
//! whether it follows redirections, and the encoding to read a response in
//! that names none. Sending it goes hop by hop. For each hop the engine names
//! the endpoint to connect to ([`Request::connect`]), renders the bytes of
//! the request ([`Request::write_request`]), and decides from the response
//! whether to deliver it or to go on to another URL
//! ([`Request::on_response`]).
//!
//! The engine opens no stream and reads no response. Whoever owns the
//! streams runs the loop around the three steps; [`send`] says what every
//! such loop comes to, and [`Request::replay`] runs it over responses that
//! are at hand.
//!
//! URLs are parsed and joined by the `url` crate, and headers are kept in the
//! header map of the `http` crate. What is taken from them on trust is said
//! in [`url`] and in [`headers`].

pub mod connect;
pub mod error;
pub mod headers;
pub mod method;
pub mod redirect;
pub mod request;
pub mod send;
pub mod text;
pub mod url;
pub mod value;
pub mod wire;

pub use connect::{Endpoint, Transport};
pub use error::{HeaderFault, HttpError, HttpResult, ResponseFault, UrlFault};
pub use method::Method;
pub use redirect::{Judgement, Verdict};
pub use request::Request;
pub use send::{End, Replay, Reply};
pub use url::{ParseFault, Url};
pub use value::{FieldValue, HttpTryInto};
