//! What holds of the conversions and the diagnostics taken together.
//!
//! Each statement is over the specification functions that the contracts in
//! [`crate::error`] use: `from_spec` for a conversion, `cause_view` for
//! [`Error::cause`] and `described_by` for [`Error::description`].

use httparse::Error as MessageError;
use openssl::ssl::Error as TlsError;
use vstd::prelude::*;
use vstd::std_specs::convert::FromSpec;
use vstd::string::to_string_from_display_ensures;

use crate::error::{Cause, Error};
use crate::foreign::tls_io_cause;

verus! {

/// The message parser's failures fall into four marker kinds: a bad header
/// name, header value, line ending or token is `Header`, a bad status line is
/// `Status`, too many headers is `TooLarge`, a bad version is `Version`.
pub proof fn message_failure_kind(e: MessageError)
    ensures
        ({
            let r = <Error as FromSpec<MessageError>>::from_spec(e);
            &&& r == Error::Header <==> e is HeaderName || e is HeaderValue || e is NewLine || e
                is Token
            &&& r == Error::Status <==> e is Status
            &&& r == Error::TooLarge <==> e is TooManyHeaders
            &&& r == Error::Version <==> e is Version
            &&& r.is_marker()
            &&& !(r is Method)
        }),
{
}

/// A transport failure becomes `Io` holding that very failure. The cause of
/// the result is the failure itself, so a text describes the cause exactly
/// when the failure displays it.
pub proof fn io_failure_is_kept(e: std::io::Error, s: String)
    ensures
        ({
            let r = <Error as FromSpec<std::io::Error>>::from_spec(e);
            &&& r == Error::Io(e)
            &&& r.cause_view() == Some(Cause::Io(&e))
            &&& Cause::Io(&e).described_by(s) <==> to_string_from_display_ensures::<
                std::io::Error,
            >(&e, s)
        }),
{
}

/// A TLS failure that was caused by a transport failure becomes `Io`, not
/// `Tls`, and holds the transport failure underneath: the result is what that
/// transport failure would have become by itself.
pub proof fn tls_transport_failure_is_io(e: TlsError, inner: std::io::Error)
    requires
        tls_io_cause(e) == Some(inner),
    ensures
        ({
            let r = <Error as FromSpec<TlsError>>::from_spec(e);
            &&& r == Error::Io(inner)
            &&& !(r is Tls)
            &&& r == <Error as FromSpec<std::io::Error>>::from_spec(inner)
            &&& r.cause_view() == Some(Cause::Io(&inner))
        }),
{
}

/// A TLS failure with no transport failure underneath becomes `Tls` holding
/// that very failure.
pub proof fn tls_failure_is_kept(e: TlsError)
    requires
        tls_io_cause(e) is None,
    ensures
        ({
            let r = <Error as FromSpec<TlsError>>::from_spec(e);
            &&& r == Error::Tls(e)
            &&& r.cause_view() == Some(Cause::Tls(&e))
        }),
{
}

/// A URI-syntax failure becomes `Uri` holding that very failure.
pub proof fn uri_failure_is_kept(e: url::ParseError)
    ensures
        ({
            let r = <Error as FromSpec<url::ParseError>>::from_spec(e);
            &&& r == Error::Uri(e)
            &&& r.cause_view() == Some(Cause::Uri(&e))
        }),
{
}

/// A marker kind has no cause, and its one description is the fixed text of
/// the kind. The other kinds always have a cause.
pub proof fn marker_diagnostics(x: Error, s: String)
    ensures
        x.is_marker() <==> x.cause_view() is None,
        x is Method ==> (x.described_by(s) <==> s@ == "Invalid Method specified"@),
        x is Version ==> (x.described_by(s) <==> s@ == "Invalid HTTP version specified"@),
        x is Header ==> (x.described_by(s) <==> s@ == "Invalid Header provided"@),
        x is TooLarge ==> (x.described_by(s) <==> s@ == "Message head is too large"@),
        x is Status ==> (x.described_by(s) <==> s@ == "Invalid Status provided"@),
{
}

/// A marker kind has a single description: two texts that describe it are
/// the same text.
pub proof fn marker_description_is_single(x: Error, s: String, t: String)
    requires
        x.is_marker(),
        x.described_by(s),
        x.described_by(t),
    ensures
        s@ == t@,
{
}

/// An error that has a cause says of itself what the cause says: a text
/// describes the one exactly when it describes the other.
pub proof fn description_is_that_of_cause(x: Error, s: String)
    ensures
        x.cause_view() matches Some(c) ==> (x.described_by(s) <==> c.described_by(s)),
{
}

/// The description that is read back after a conversion is one that the
/// foreign failure gives of itself: for a transport failure, for a URI-syntax
/// failure, and for a TLS failure with no transport failure underneath. A TLS
/// failure with a transport failure underneath reads back as that transport
/// failure, and a failure of the message parser as the fixed text of its
/// kind.
pub proof fn conversion_keeps_description(
    io: std::io::Error,
    uri: url::ParseError,
    tls: TlsError,
    message: MessageError,
    s: String,
)
    ensures
        <Error as FromSpec<std::io::Error>>::from_spec(io).described_by(s)
            <==> to_string_from_display_ensures::<std::io::Error>(&io, s),
        <Error as FromSpec<url::ParseError>>::from_spec(uri).described_by(s)
            <==> to_string_from_display_ensures::<url::ParseError>(&uri, s),
        tls_io_cause(tls) is None ==> (<Error as FromSpec<TlsError>>::from_spec(tls).described_by(s)
            <==> to_string_from_display_ensures::<TlsError>(&tls, s)),
        tls_io_cause(tls) matches Some(inner) ==> (<Error as FromSpec<TlsError>>::from_spec(
            tls,
        ).described_by(s) <==> to_string_from_display_ensures::<std::io::Error>(&inner, s)),
        <Error as FromSpec<MessageError>>::from_spec(message).described_by(s) ==> (s@
            == "Invalid Header provided"@ || s@ == "Invalid Status provided"@ || s@
            == "Message head is too large"@ || s@ == "Invalid HTTP version specified"@),
{
}

} // verus!
