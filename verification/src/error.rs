//! The error type, its conversions and its diagnostics.

use httparse::Error as MessageError;
use openssl::ssl::Error as TlsError;
use vstd::prelude::*;
use vstd::std_specs::convert::FromSpecImpl;
use vstd::string::to_string_from_display_ensures;

use crate::foreign::tls_io_cause;

verus! {

/// What fallible operations of the stack return.
pub type Result<T> = std::result::Result<T, Error>;

/// The failures that can occur while handling HTTP streams.
///
/// The set is closed. Five kinds are bare markers; three carry the foreign
/// failure that was reported, unchanged, for as long as the `Error` lives.
#[derive(Debug)]
pub enum Error {
    /// An invalid request method, such as `GE,T`.
    Method,
    /// An invalid request target, such as `exam ple.domain`.
    Uri(url::ParseError),
    /// An invalid protocol version, such as `HTP/1.1`.
    Version,
    /// An invalid header name, value, line ending or token.
    Header,
    /// A message head that is too large to be reasonable.
    TooLarge,
    /// An invalid status line, such as `1337 ELITE`.
    Status,
    /// A failure of the underlying transport, also when the TLS layer
    /// reported it.
    Io(std::io::Error),
    /// A failure of the TLS negotiation itself.
    Tls(TlsError),
}

/// The foreign failure behind an [`Error`], borrowed from it.
#[derive(Clone, Copy, Debug)]
pub enum Cause<'a> {
    /// The URI-syntax failure inside [`Error::Uri`].
    Uri(&'a url::ParseError),
    /// The transport failure inside [`Error::Io`].
    Io(&'a std::io::Error),
    /// The TLS failure inside [`Error::Tls`].
    Tls(&'a TlsError),
}

impl<'a> Cause<'a> {
    /// Whether `s` is a text that the foreign failure gives of itself when it
    /// is displayed.
    pub open spec fn described_by(self, s: String) -> bool {
        match self {
            Cause::Uri(e) => to_string_from_display_ensures::<url::ParseError>(e, s),
            Cause::Io(e) => to_string_from_display_ensures::<std::io::Error>(e, s),
            Cause::Tls(e) => to_string_from_display_ensures::<TlsError>(e, s),
        }
    }

    /// The foreign failure's own description: what it displays.
    pub fn description(&self) -> (s: String)
        ensures
            self.described_by(s),
    {
        match *self {
            Cause::Uri(e) => e.to_string(),
            Cause::Io(e) => e.to_string(),
            Cause::Tls(e) => e.to_string(),
        }
    }
}

impl Error {
    /// Whether this kind is a bare marker, with no foreign failure inside.
    pub open spec fn is_marker(self) -> bool {
        self is Method || self is Version || self is Header || self is TooLarge || self is Status
    }

    /// What a failure of the message parser becomes: one marker kind for
    /// each of its seven failures.
    pub open spec fn of_message_failure(err: MessageError) -> Error {
        match err {
            MessageError::HeaderName => Error::Header,
            MessageError::HeaderValue => Error::Header,
            MessageError::NewLine => Error::Header,
            MessageError::Status => Error::Status,
            MessageError::Token => Error::Header,
            MessageError::TooManyHeaders => Error::TooLarge,
            MessageError::Version => Error::Version,
        }
    }

    /// What a failure of the TLS layer becomes: `Io` with the transport
    /// failure underneath where there is one, else `Tls` with the failure as
    /// it is.
    ///
    /// In the first case the TLS failure around the transport failure is
    /// dropped: the result does not tell that it was met inside the TLS layer.
    pub open spec fn of_tls_failure(err: TlsError) -> Error {
        match tls_io_cause(err) {
            Some(inner) => Error::Io(inner),
            None => Error::Tls(err),
        }
    }

    /// The value of [`Error::cause`]: the carried failure, or nothing for a
    /// marker.
    pub open spec fn cause_view(&self) -> Option<Cause<'_>> {
        match self {
            Error::Uri(e) => Some(Cause::Uri(e)),
            Error::Io(e) => Some(Cause::Io(e)),
            Error::Tls(e) => Some(Cause::Tls(e)),
            _ => None,
        }
    }

    /// Whether `s` is a description of this error: the fixed text of the kind
    /// for a marker, a text that the carried failure gives of itself for the
    /// other kinds.
    pub open spec fn described_by(self, s: String) -> bool {
        match self {
            Error::Method => s@ == "Invalid Method specified"@,
            Error::Version => s@ == "Invalid HTTP version specified"@,
            Error::Header => s@ == "Invalid Header provided"@,
            Error::TooLarge => s@ == "Message head is too large"@,
            Error::Status => s@ == "Invalid Status provided"@,
            Error::Uri(e) => Cause::Uri(&e).described_by(s),
            Error::Io(e) => Cause::Io(&e).described_by(s),
            Error::Tls(e) => Cause::Tls(&e).described_by(s),
        }
    }

    /// A short human-readable description of the failure.
    ///
    /// A marker has a fixed text. An error that carries a foreign failure
    /// makes up no text of its own: it returns what that failure displays.
    pub fn description(&self) -> (s: String)
        ensures
            self.described_by(s),
    {
        match self {
            Error::Method => "Invalid Method specified".to_owned(),
            Error::Version => "Invalid HTTP version specified".to_owned(),
            Error::Header => "Invalid Header provided".to_owned(),
            Error::TooLarge => "Message head is too large".to_owned(),
            Error::Status => "Invalid Status provided".to_owned(),
            Error::Uri(e) => e.to_string(),
            Error::Io(e) => e.to_string(),
            Error::Tls(e) => e.to_string(),
        }
    }

    /// The foreign failure that this error was made from, if it carries one.
    pub fn cause(&self) -> (c: Option<Cause<'_>>)
        ensures
            c == self.cause_view(),
    {
        match self {
            Error::Io(e) => Some(Cause::Io(e)),
            Error::Tls(e) => Some(Cause::Tls(e)),
            Error::Uri(e) => Some(Cause::Uri(e)),
            _ => None,
        }
    }
}

/// Any transport failure is an `Io` error.
impl From<std::io::Error> for Error {
    fn from(err: std::io::Error) -> (r: Error)
        ensures
            r == Error::Io(err),
    {
        Error::Io(err)
    }
}

impl FromSpecImpl<std::io::Error> for Error {
    open spec fn obeys_from_spec() -> bool {
        true
    }

    open spec fn from_spec(err: std::io::Error) -> Error {
        Error::Io(err)
    }
}

/// Any URI-syntax failure is a `Uri` error.
impl From<url::ParseError> for Error {
    fn from(err: url::ParseError) -> (r: Error)
        ensures
            r == Error::Uri(err),
    {
        Error::Uri(err)
    }
}

impl FromSpecImpl<url::ParseError> for Error {
    open spec fn obeys_from_spec() -> bool {
        true
    }

    open spec fn from_spec(err: url::ParseError) -> Error {
        Error::Uri(err)
    }
}

/// A TLS failure is an `Io` error if a transport failure caused it, and a
/// `Tls` error if not.
impl From<TlsError> for Error {
    fn from(err: TlsError) -> (r: Error)
        ensures
            r == Error::of_tls_failure(err),
    {
        match err.into_io_error() {
            Ok(inner) => Error::Io(inner),
            Err(err) => Error::Tls(err),
        }
    }
}

impl FromSpecImpl<TlsError> for Error {
    open spec fn obeys_from_spec() -> bool {
        true
    }

    open spec fn from_spec(err: TlsError) -> Error {
        Error::of_tls_failure(err)
    }
}

/// A failure of the message parser is one of the markers `Header`, `Status`,
/// `TooLarge` and `Version`.
impl From<MessageError> for Error {
    fn from(err: MessageError) -> (r: Error)
        ensures
            r == Error::of_message_failure(err),
    {
        match err {
            MessageError::HeaderName => Error::Header,
            MessageError::HeaderValue => Error::Header,
            MessageError::NewLine => Error::Header,
            MessageError::Status => Error::Status,
            MessageError::Token => Error::Header,
            MessageError::TooManyHeaders => Error::TooLarge,
            MessageError::Version => Error::Version,
        }
    }
}

impl FromSpecImpl<MessageError> for Error {
    open spec fn obeys_from_spec() -> bool {
        true
    }

    open spec fn from_spec(err: MessageError) -> Error {
        Error::of_message_failure(err)
    }
}

} // verus!
