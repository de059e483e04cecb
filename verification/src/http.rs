//! HTTP statuses and headers, as far as the service's responses use them.

use vstd::prelude::*;

verus! {

/// The HTTP statuses that the service's responses can carry.
#[derive(Clone, Copy, Debug, PartialEq, Eq, Structural)]
pub enum HttpStatus {
    NoContent,
    BadRequest,
    NotFound,
    PayloadTooLarge,
    InternalServerError,
    ServiceUnavailable,
}

impl HttpStatus {
    /// The numeric status code sent on the wire.
    pub fn code(&self) -> (c: u16)
        ensures
            c == self.spec_code(),
    {
        match self {
            HttpStatus::NoContent => 204,
            HttpStatus::BadRequest => 400,
            HttpStatus::NotFound => 404,
            HttpStatus::PayloadTooLarge => 413,
            HttpStatus::InternalServerError => 500,
            HttpStatus::ServiceUnavailable => 503,
        }
    }

    /// The code of each status.
    pub open spec fn spec_code(self) -> u16 {
        match self {
            HttpStatus::NoContent => 204,
            HttpStatus::BadRequest => 400,
            HttpStatus::NotFound => 404,
            HttpStatus::PayloadTooLarge => 413,
            HttpStatus::InternalServerError => 500,
            HttpStatus::ServiceUnavailable => 503,
        }
    }
}

/// One response header: a name and a value.
pub struct Header {
    pub name: String,
    pub value: String,
}

impl Header {
    /// The header as a pair of character sequences.
    pub open spec fn view(self) -> (Seq<char>, Seq<char>) {
        (self.name@, self.value@)
    }
}

impl Clone for Header {
    fn clone(&self) -> (r: Self)
        ensures
            r@ == self@,
    {
        Header { name: self.name.clone(), value: self.value.clone() }
    }
}

} // verus!
