//! Header values, and the conversion of a caller's value into one.

use vstd::prelude::*;
use vstd::slice::slice_to_vec;
use vstd::string::StringSliceAdditionalSpecFns;
use vstd::utf8::encode_utf8;
use crate::error::{HeaderFault, HttpError};
use crate::headers::{valid_value, value_ok};

verus! {

/// A header value: bytes that a header map takes.
#[derive(Debug)]
pub struct FieldValue {
    bytes: Vec<u8>,
}

impl View for FieldValue {
    type V = Seq<u8>;

    closed spec fn view(&self) -> Seq<u8> {
        self.bytes@
    }
}

impl FieldValue {
    #[verifier::type_invariant]
    spec fn admissible(self) -> bool {
        valid_value(self.bytes@)
    }

    /// The value that holds `bytes`, where a header value can hold them.
    pub fn from_bytes(bytes: &[u8]) -> (r: Result<FieldValue, HttpError>)
        ensures
            match r {
                Ok(value) => valid_value(bytes@) && value@ == bytes@,
                Err(e) => !valid_value(bytes@) && e == HttpError::Header(HeaderFault::InvalidValue),
            },
    {
        if value_ok(bytes) {
            Ok(FieldValue { bytes: slice_to_vec(bytes) })
        } else {
            Err(HttpError::Header(HeaderFault::InvalidValue))
        }
    }

    /// The bytes of the value.
    pub fn as_bytes(&self) -> (r: &[u8])
        ensures
            r@ == self@,
            valid_value(r@),
    {
        proof {
            use_type_invariant(self);
        }
        self.bytes.as_slice()
    }
}

/// A conversion that can be refused. The engine converts into
/// [`FieldValue`]: a text or a byte string becomes a header value where
/// every byte of it is one that a header value may hold.
pub trait HttpTryInto<T: View<V = Seq<u8>>>: Sized {
    /// The bytes that the value offers.
    spec fn offered(&self) -> Seq<u8>;

    /// Converts the value. It is refused where
    /// [`valid_value`] does not hold of what it offers.
    fn try_into(self) -> (r: Result<T, HttpError>)
        ensures
            match r {
                Ok(value) => valid_value(self.offered()) && value@ == self.offered(),
                Err(e) => !valid_value(self.offered()) && e == HttpError::Header(
                    HeaderFault::InvalidValue,
                ),
            },
    ;
}

impl HttpTryInto<FieldValue> for FieldValue {
    closed spec fn offered(&self) -> Seq<u8> {
        self@
    }

    fn try_into(self) -> (r: Result<FieldValue, HttpError>) {
        proof {
            use_type_invariant(&self);
        }
        Ok(self)
    }
}

impl<'a> HttpTryInto<FieldValue> for &'a [u8] {
    open spec fn offered(&self) -> Seq<u8> {
        self@
    }

    fn try_into(self) -> (r: Result<FieldValue, HttpError>) {
        FieldValue::from_bytes(self)
    }
}

impl HttpTryInto<FieldValue> for Vec<u8> {
    open spec fn offered(&self) -> Seq<u8> {
        self@
    }

    fn try_into(self) -> (r: Result<FieldValue, HttpError>) {
        FieldValue::from_bytes(self.as_slice())
    }
}

impl<'a> HttpTryInto<FieldValue> for &'a str {
    open spec fn offered(&self) -> Seq<u8> {
        self.spec_bytes()
    }

    fn try_into(self) -> (r: Result<FieldValue, HttpError>) {
        FieldValue::from_bytes(self.as_bytes())
    }
}

impl HttpTryInto<FieldValue> for String {
    open spec fn offered(&self) -> Seq<u8> {
        encode_utf8(self@)
    }

    fn try_into(self) -> (r: Result<FieldValue, HttpError>) {
        FieldValue::from_bytes(self.as_str().as_bytes())
    }
}

} // verus!
