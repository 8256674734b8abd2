//! Decisions of a one-shot HTTP request bridge.
//!
//! A caller hands over a method token, a target URL, an optional body and a
//! compression level. The library validates them, lays out the request that
//! is to be sent, judges the status of the response and settles what the
//! call finally yields. Performing the exchange itself is left to the caller:
//! every function here maps plain values to plain values.

pub mod bridge;
pub mod decimal;
pub mod deflate;
pub mod error;
pub mod method;
pub mod request;
pub mod status;
pub mod text;
pub mod trace;
pub mod url;
