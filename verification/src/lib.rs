//! API bindings for ListenBrainz.
//!
//! This crate holds everything about the ListenBrainz HTTP API (version 1)
//! that can be decided without a network: the paths of the endpoints, the
//! requests of the operations, the documents that are sent and received, and
//! what a response means. It does not send anything itself. An operation is
//! prepared, sent by whatever HTTP client the caller has, and finished with
//! the response that came back:
//!
//! ```ignore
//! let call = Client::new().user_listen_count("alice");
//! let response = transport.send(&call.request)?;
//! let count = call.finish(&response)?.payload.count;
//! ```
//!
//! The functionality for direct access to the API is in the [`raw`] module.
//! The [`ListenBrainz`] client on top of it remembers a validated token and
//! is easier to use for submitting listens.
//!
//! Every function of the crate comes with a contract that says what it
//! returns, and is proved to meet it. The contracts speak of mathematical
//! values: a text is a sequence of characters, a record its model (for
//! example [`http::RequestModel`] for [`http::Request`]), a JSON document a
//! [`json::Json`].

pub mod codec;
pub mod error;
pub mod http;
pub mod json;
pub mod raw;
pub mod text;
pub mod wrapper;

pub use crate::error::Error;
pub use crate::wrapper::ListenBrainz;
