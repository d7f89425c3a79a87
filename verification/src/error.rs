//! The error taxonomy of the relay and its mapping to SOCKS status codes.
//!
//! A failed connection attempt ends in exactly one `Error`, and the reply
//! sent to the client (when one is sent at all) carries the one-byte status
//! computed by `Error::socks_code`.

use vstd::prelude::*;

verus! {

/// Semantic violations of the SOCKS5 grammar, plus the failure modes of
/// establishing the outbound connection.
#[derive(Clone, Copy, Debug, PartialEq, Eq, Structural)]
pub enum ProtocolError {
    UnsupportedVersion,
    NoSupportedAuth,
    General,
    CommandNotSupported,
    AddressTypeNotSupported,
    HostUnreachable,
}

/// The transport-level failure classes that the status mapping distinguishes.
/// Everything the platform reports is folded into one of these.
#[derive(Clone, Copy, Debug, PartialEq, Eq, Structural)]
pub enum IoErrorKind {
    BrokenPipe,
    ConnectionRefused,
    ConnectionReset,
    PermissionDenied,
    Other,
}

/// A terminal failure of one connection attempt: either a transport failure
/// or a protocol violation. Never retried.
#[derive(Clone, Copy, Debug, PartialEq, Eq, Structural)]
pub enum Error {
    Io(IoErrorKind),
    Protocol(ProtocolError),
}

/// The one-byte SOCKS reply status for each error.
pub open spec fn socks_code_spec(e: Error) -> u8 {
    match e {
        Error::Protocol(ProtocolError::HostUnreachable) => 4,
        Error::Protocol(ProtocolError::CommandNotSupported) => 7,
        Error::Protocol(ProtocolError::AddressTypeNotSupported) => 8,
        Error::Io(IoErrorKind::ConnectionRefused) => 5,
        Error::Io(IoErrorKind::ConnectionReset) => 5,
        Error::Io(IoErrorKind::PermissionDenied) => 2,
        _ => 1,
    }
}

impl Error {
    /// The status byte placed in a SOCKS reply that reports this error.
    pub fn socks_code(&self) -> (code: u8)
        ensures
            code == socks_code_spec(*self),
    {
        match self {
            Error::Protocol(ProtocolError::HostUnreachable) => 4,
            Error::Protocol(ProtocolError::CommandNotSupported) => 7,
            Error::Protocol(ProtocolError::AddressTypeNotSupported) => 8,
            Error::Io(kind) => match kind {
                IoErrorKind::ConnectionRefused => 5,
                IoErrorKind::ConnectionReset => 5,
                IoErrorKind::PermissionDenied => 2,
                _ => 1,
            },
            _ => 1,
        }
    }
}

} // verus!
