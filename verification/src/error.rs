//! The service's error and how it surfaces over REST.

use vstd::prelude::*;

use crate::http::HttpStatus;

verus! {

/// The one failure the service can meet: a database error, with the
/// driver's message.
pub enum Error {
    Database(String),
}

impl Error {
    /// The REST layer's answer to a failure: every database error surfaces
    /// as a generic service-unavailable response.
    pub fn respond_to(&self) -> (s: HttpStatus)
        ensures
            s is ServiceUnavailable,
    {
        match self {
            Error::Database(_) => HttpStatus::ServiceUnavailable,
        }
    }

    /// The driver's message, for the log.
    pub fn message(&self) -> (m: &String)
        ensures
            self matches Error::Database(s) && m@ == s@,
    {
        match self {
            Error::Database(m) => m,
        }
    }
}

} // verus!
