//! Client library for a school-management platform's internal HTTP API.
//!
//! The library models every request the platform understands as plain data:
//! each operation builds an [`http::HttpRequest`] describing exactly one HTTP
//! round trip, and the surrounding application performs the network call and
//! feeds responses back in. The login handshake, the folder-identifier wire
//! codec and the request catalogue are all specified and verified here.

pub mod client;
pub mod error;
pub mod http;
pub mod mydoc;
pub mod serde;
pub mod upload;
pub mod uuid;

pub use client::Client;
pub use error::Error;
