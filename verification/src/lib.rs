//! Typed request building and response decoding for the BlindPay payments API.
//!
//! The library describes every API operation as an [`http::HttpRequest`] value and
//! resolves a received status and body to a payload or a [`BlindPayError`]. Moving the
//! bytes over the network is left to the caller.

pub mod client;
pub mod error;
pub mod http;
pub mod json;
pub mod resources;
pub mod types;

pub use client::BlindPay;
pub use error::BlindPayError;
