//! Error handling functionality.

use vstd::prelude::*;

verus! {

/// An error surfaced by a library operation.
///
/// Every operation performs at most one HTTP round trip and reports failures
/// to its caller immediately; nothing is retried or recovered internally.
#[derive(Clone, Copy, Debug, PartialEq, Eq, Structural)]
pub enum Error {
    /// The login token was absent from the login page, or the post-login
    /// response lacked the expected session cookie. Bad markup and bad
    /// credentials are deliberately reported identically: the two causes
    /// cannot be told apart from the response alone.
    Authentication,
    /// The network stack failed to produce a response at all.
    Transport,
    /// The server answered an authenticated operation with a client or
    /// server error status; the status code is carried along.
    HttpStatus(u16),
    /// A response body could not be read as text or as the expected shape.
    Decode,
}

} // verus!
