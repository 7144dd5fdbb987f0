//! Client library for the Sigma people-search API.
//!
//! The library decides everything around the HTTP exchange: which endpoint an
//! operation targets, which parameters it sends, whether a session is
//! authenticated, and how a response (status and body) becomes a typed record
//! or an error. Sending the request and reading the reply is left to the caller.
pub mod client;
pub mod errors;
pub mod http;
pub mod json;
pub mod response;
pub mod text;
