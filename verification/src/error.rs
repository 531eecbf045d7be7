use vstd::prelude::*;
use vstd::string::StringExecFns;

use crate::role::Role;

verus! {

/// Everything that can go wrong while credentials are loaded or a session is
/// set up.
#[derive(Clone, Copy, Debug, PartialEq, Eq, Structural)]
pub enum TlsError {
    /// Credential material could not be read, or the socket not opened.
    IoError,
    /// Credential material was read but is malformed.
    DecodeError,
    /// A bundle's password was given and is not the right one.
    WrongPassword,
    /// The peer's certificate is untrusted, expired, or its chain is broken.
    CertificateValidationError,
    /// The protocol negotiation itself failed.
    HandshakeError,
    /// The transport failed once the handshake had succeeded.
    NetworkError,
    /// The identity's container cannot be used by the side that loaded it.
    UnsupportedIdentityFormat,
    /// A trust anchor was offered for the side it was not loaded for.
    MisplacedTrustAnchor,
    /// The role argument is missing or is neither `server` nor `client`.
    UnknownRole,
}

/// What the process does about a failure.
#[derive(Clone, Copy, Debug, PartialEq, Eq, Structural)]
pub enum Disposition {
    /// Stop before any socket is opened.
    AbortStartup,
    /// Drop the one connection and keep accepting others.
    DropConnection,
    /// Hand the failure to the caller; nothing is retried.
    ReportToCaller,
}

/// The result is the failure `e`.
pub open spec fn fails_with<T>(r: Result<T, TlsError>, e: TlsError) -> bool {
    r is Err && r->Err_0 == e
}

impl TlsError {
    /// Whether the failure can only arise while the trust configuration is
    /// put together, before any socket exists.
    pub open spec fn arises_at_startup(self) -> bool {
        match self {
            TlsError::CertificateValidationError => false,
            TlsError::HandshakeError => false,
            TlsError::NetworkError => false,
            _ => true,
        }
    }

    /// The policy by which failures propagate: a startup failure aborts
    /// whichever role met it, a per-connection failure costs a server only that
    /// connection, and a client hands it to its caller.
    pub open spec fn disposition_spec(self, role: Role) -> Disposition {
        if self.arises_at_startup() {
            Disposition::AbortStartup
        } else if role == Role::Server {
            Disposition::DropConnection
        } else {
            Disposition::ReportToCaller
        }
    }

    pub fn disposition(&self, role: Role) -> (d: Disposition)
        ensures
            d == self.disposition_spec(role),
    {
        match self {
            TlsError::CertificateValidationError | TlsError::HandshakeError | TlsError::NetworkError => {
                match role {
                    Role::Server => Disposition::DropConnection,
                    Role::Client => Disposition::ReportToCaller,
                }
            },
            _ => Disposition::AbortStartup,
        }
    }

    /// The text shown for each failure.
    pub open spec fn message_spec(self) -> Seq<char> {
        match self {
            TlsError::IoError => "credential material could not be read, or the socket not opened"@,
            TlsError::DecodeError => "credential material is malformed"@,
            TlsError::WrongPassword => "the identity bundle's password is wrong"@,
            TlsError::CertificateValidationError => "the peer's certificate was not accepted"@,
            TlsError::HandshakeError => "the handshake failed"@,
            TlsError::NetworkError => "the connection failed after the handshake"@,
            TlsError::UnsupportedIdentityFormat => "this identity format is not supported here"@,
            TlsError::MisplacedTrustAnchor => "the trust anchor was loaded for the other side"@,
            TlsError::UnknownRole => "expected the role `server` or `client`"@,
        }
    }

    pub fn message(&self) -> (text: String)
        ensures
            text@ == self.message_spec(),
    {
        match self {
            TlsError::IoError => String::from_str("credential material could not be read, or the socket not opened"),
            TlsError::DecodeError => String::from_str("credential material is malformed"),
            TlsError::WrongPassword => String::from_str("the identity bundle's password is wrong"),
            TlsError::CertificateValidationError => String::from_str(
                "the peer's certificate was not accepted",
            ),
            TlsError::HandshakeError => String::from_str("the handshake failed"),
            TlsError::NetworkError => String::from_str("the connection failed after the handshake"),
            TlsError::UnsupportedIdentityFormat => String::from_str(
                "this identity format is not supported here",
            ),
            TlsError::MisplacedTrustAnchor => String::from_str(
                "the trust anchor was loaded for the other side",
            ),
            TlsError::UnknownRole => String::from_str("expected the role `server` or `client`"),
        }
    }
}

} // verus!
