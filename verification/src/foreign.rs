//! The foreign failure types, and what is taken on trust about them.
//!
//! Nothing in this file is proved. Each item states, for one type or function
//! of `std`, `url`, `openssl` or `httparse`, what the rest of the crate relies
//! on.

use httparse::Error as MessageError;
use openssl::ssl::Error as TlsError;
use vstd::prelude::*;

verus! {

/// `std::io::Error`, carried as an opaque value.
#[verifier::external_type_specification]
#[verifier::external_body]
pub struct ExIoError(std::io::Error);

/// `url::ParseError`, carried as an opaque value.
#[verifier::external_type_specification]
#[verifier::external_body]
pub struct ExUriError(url::ParseError);

/// `openssl::ssl::Error`, carried as an opaque value.
#[verifier::external_type_specification]
#[verifier::external_body]
pub struct ExTlsError(TlsError);

/// `httparse::Error`, a plain enum. It is declared with its variants, so a
/// `match` on it is checked against the enum as `httparse` defines it.
#[verifier::external_type_specification]
pub struct ExMessageError(MessageError);

/// The transport failure that a TLS failure carries as its cause, if it
/// carries one: what `openssl::ssl::Error::into_io_error` looks for.
pub uninterp spec fn tls_io_cause(e: TlsError) -> Option<std::io::Error>;

/// `openssl::ssl::Error::into_io_error` hands out the transport failure that
/// the TLS failure carries, and hands the TLS failure back untouched when it
/// carries none.
pub assume_specification[ TlsError::into_io_error ](e: TlsError) -> (r: std::result::Result<
    std::io::Error,
    TlsError,
>)
    ensures
        r == match tls_io_cause(e) {
            Some(inner) => Ok(inner),
            None => Err(e),
        },
;

} // verus!
