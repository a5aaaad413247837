//! Client-side logic for the Domo REST API, without the network.
//!
//! The crate decides and describes; it never sends. A caller asks the
//! credentials for the next step towards an access token, sends the request
//! that a step or a builder describes, and hands the reply back to be read.
//!
//! - [`auth`]: credentials, scopes, the access token and its cache
//! - [`datasets`]: the dataset operations and the requests they send
//! - [`http`]: requests and replies as plain values, and what a reply means
//! - [`json`]: the members of a JSON object, read through `serde_json`
//! - [`error`]: the failures
//! - [`text`]: decimal numbers, joined lists and query encoding

pub mod auth;
pub mod datasets;
pub mod error;
pub mod http;
pub mod json;
pub mod text;
