//! One closed error type for an HTTP stack, and the conversions into it from
//! the failures of the transport, the TLS layer, the URI parser and the HTTP
//! message parser.

pub mod error;
pub mod foreign;
pub mod theorems;

pub use error::{Cause, Error, Result};
