//! Low-level functionality to work with the ListenBrainz API.
//!
//! The types and functions of this module map one-to-one to the input and
//! response data of the HTTP API.

pub mod client;
pub mod endpoint;
pub mod jspf;
pub mod request;
pub mod response;

pub use self::client::Client;
