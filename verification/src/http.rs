//! HTTP-related utilities: the plain description of one request, and the
//! classification of response statuses.

use crate::error::Error;
use crate::serde::Json;
use vstd::prelude::*;

verus! {

/// The HTTP method of a request.
#[derive(Clone, Copy, Debug, PartialEq, Eq, Structural)]
pub enum Method {
    Get,
    Post,
    Delete,
}

/// The body of a request.
#[derive(Debug)]
pub enum Body {
    /// No body at all.
    Empty,
    /// A JSON object with exactly the given fields, in the given order.
    Json(Vec<(&'static str, Json)>),
    /// An `x-www-form-urlencoded` form with exactly the given fields, in the
    /// given order.
    Form(Vec<(&'static str, String)>),
}

/// A full description of one HTTP round trip against the platform: every
/// operation of this library reduces to sending one of these and reading
/// the response.
#[derive(Debug)]
pub struct HttpRequest {
    /// The method to send the request with.
    pub method: Method,
    /// The absolute URL to send the request to.
    pub url: String,
    /// The body to attach.
    pub body: Body,
}

/// Classifies a response status code: client error (4xx) and server error
/// (5xx) statuses fail, carrying the code; every other status is accepted.
pub fn classify_status(status: u16) -> (r: Result<(), Error>)
    ensures
        r == (if 400 <= status && status < 600 {
            Err::<(), Error>(Error::HttpStatus(status))
        } else {
            Ok::<(), Error>(())
        }),
{
    if 400 <= status && status < 600 {
        Err(Error::HttpStatus(status))
    } else {
        Ok(())
    }
}

} // verus!
