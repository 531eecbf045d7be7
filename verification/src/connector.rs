//! The client side: a connector that trusts one pinned anchor, presents one
//! identity, and speaks TLS only.

use vstd::prelude::*;
use vstd::string::StringSliceAdditionalSpecFns;

use crate::anchor::CertificateAuthority;
use crate::bindings::{
    arose_connecting,
    cause_text,
    clone_certificate,
    error_text,
    parsed_from,
    refused_unsent,
    told_to,
    Told,
};
use crate::error::{fails_with, TlsError};
use crate::identity::{IdentityFormat, LocalIdentity};
use crate::role::Role;
use crate::text::{begins_with_folded, contains, has_prefix_folded, occurs_in};

verus! {

/// The TLS implementations a connector can run on.
#[derive(Clone, Copy, Debug, PartialEq, Eq, Structural)]
pub enum TlsBackend {
    /// The platform's TLS library, the one that opens bundles.
    Native,
    /// rustls, the one that reads PEM pairs.
    Rustls,
}

/// How a connector is set up.
#[derive(Clone, Copy, Debug, PartialEq, Eq, Structural)]
pub struct ConnectorSettings {
    pub backend: TlsBackend,
    /// Whether the roots that come with the platform are trusted too.
    pub built_in_roots: bool,
    /// Whether every request must go over TLS.
    pub https_only: bool,
}

/// The backend that can present an identity of the given format.
pub open spec fn backend_for(format: IdentityFormat) -> TlsBackend {
    match format {
        IdentityFormat::Bundle => TlsBackend::Native,
        IdentityFormat::PemPair => TlsBackend::Rustls,
    }
}

/// The only settings a connector is ever built with: the backend that fits
/// the identity, no trust in the platform's roots, and no plaintext.
pub open spec fn pinned_settings(format: IdentityFormat) -> ConnectorSettings {
    ConnectorSettings { backend: backend_for(format), built_in_roots: false, https_only: true }
}

impl ConnectorSettings {
    pub fn pinned(format: IdentityFormat) -> (s: ConnectorSettings)
        ensures
            s == pinned_settings(format),
    {
        let backend = match format {
            IdentityFormat::Bundle => TlsBackend::Native,
            IdentityFormat::PemPair => TlsBackend::Rustls,
        };
        ConnectorSettings { backend, built_in_roots: false, https_only: true }
    }
}

/// What a connector stands for: its settings and the PEM bytes of the one
/// anchor it validates servers against.
pub struct PinnedTrust {
    pub settings: ConnectorSettings,
    pub anchor: Seq<u8>,
    /// The client that the backend built.
    pub client: reqwest::Client,
}

/// A client ready to open connections. It holds no state that a request
/// changes, so independent requests may share it.
pub struct Connector {
    settings: ConnectorSettings,
    anchor: Vec<u8>,
    client: reqwest::Client,
}

impl View for Connector {
    type V = PinnedTrust;

    closed spec fn view(&self) -> PinnedTrust {
        PinnedTrust { settings: self.settings, anchor: self.anchor@, client: self.client }
    }
}

/// Whether a connector can be built on an anchor loaded for `holder`, and
/// the failure if it cannot: the anchor must have been loaded for a client.
pub open spec fn connect_refusal(holder: Role) -> Option<TlsError> {
    if holder != Role::Client {
        Some(TlsError::MisplacedTrustAnchor)
    } else {
        None
    }
}

/// The scheme every request must begin with, in whichever case.
pub open spec fn secure_scheme() -> Seq<u8> {
    "https://".spec_bytes()
}

/// Whether a request to `url` goes over TLS: it begins with the secure
/// scheme, whose letters may be capitals.
pub open spec fn is_secure_target(url: Seq<u8>) -> bool {
    begins_with_folded(url, secure_scheme())
}

/// Whether the text of a failure's cause speaks of a certificate that was
/// refused, by either side and in the words of either backend. The text is
/// that of the cause alone: the request's address is no part of it.
pub open spec fn speaks_of_certificate(text: Seq<u8>) -> bool {
    ||| occurs_in("ertificate".spec_bytes(), text)
    ||| occurs_in("nknown ca".spec_bytes(), text)
    ||| occurs_in("UnknownCA".spec_bytes(), text)
    ||| occurs_in("UnknownIssuer".spec_bytes(), text)
}

/// The class of a failed request. One that was refused before anything was
/// sent is a failed handshake: no session could be negotiated. Of the
/// others, a refused certificate wherever the text speaks of one; otherwise
/// a failed handshake if the connection was still being set up, and a
/// network failure if it was not.
pub open spec fn request_failure_spec(unsent: bool, connecting: bool, text: Seq<u8>) -> TlsError {
    if unsent {
        TlsError::HandshakeError
    } else if speaks_of_certificate(text) {
        TlsError::CertificateValidationError
    } else if connecting {
        TlsError::HandshakeError
    } else {
        TlsError::NetworkError
    }
}

pub fn request_failure(unsent: bool, connecting: bool, text: &[u8]) -> (e: TlsError)
    ensures
        e == request_failure_spec(unsent, connecting, text@),
{
    if unsent {
        TlsError::HandshakeError
    } else if contains(text, "ertificate".as_bytes()) || contains(text, "nknown ca".as_bytes())
        || contains(text, "UnknownCA".as_bytes()) || contains(text, "UnknownIssuer".as_bytes()) {
        TlsError::CertificateValidationError
    } else if connecting {
        TlsError::HandshakeError
    } else {
        TlsError::NetworkError
    }
}

/// The class of a request that failed with the given error: what
/// `request_failure_spec` says of whether it was sent, whether it was still
/// connecting, and the text of its cause, and never of where it went.
pub fn classify(failure: &reqwest::Error) -> (e: TlsError)
    ensures
        e == request_failure_spec(
            refused_unsent(*failure),
            arose_connecting(*failure),
            vstd::utf8::encode_utf8(cause_text(*failure)),
        ),
{
    let unsent = failure.is_builder();
    let connecting = failure.is_connect();
    let text = error_text(failure);
    request_failure(unsent, connecting, text.as_str().as_bytes())
}

impl Connector {
    #[verifier::type_invariant]
    spec fn pinned(self) -> bool {
        !self.settings.built_in_roots && self.settings.https_only
    }

    /// Builds the client for one anchor and one identity.
    ///
    /// An anchor that was loaded for a server is refused with
    /// `MisplacedTrustAnchor`, and nothing else is. The client is built from
    /// a builder that was told exactly this: the backend that fits the
    /// identity's format, no trust in the platform's roots, this anchor as
    /// the only root, this identity, and no plaintext. Where the backend
    /// cannot be set up with that, the failure is a `DecodeError`.
    pub fn new(anchor: &CertificateAuthority, identity: LocalIdentity) -> (r: Result<
        Connector,
        TlsError,
    >)
        ensures
            connect_refusal(anchor@.holder) matches Some(e) ==> fails_with(r, e),
            connect_refusal(anchor@.holder) is None && r is Err ==> fails_with(
                r,
                TlsError::DecodeError,
            ),
            r matches Ok(connector) ==> connector@.settings == pinned_settings(identity@.format)
                && connector@.anchor == anchor@.pem,
            r matches Ok(connector) ==> told_to(connector.built()) == (Told {
                rustls: identity@.format == IdentityFormat::PemPair,
                platform_roots: false,
                roots: seq![anchor.certificate()],
                identity: Some(identity.decoded()),
                https_only: true,
            }),
            r matches Ok(connector) ==> parsed_from(told_to(connector.built()).roots[0])
                == connector@.anchor,
    {
        if !anchor.serves(Role::Client) {
            return Err(TlsError::MisplacedTrustAnchor);
        }
        let settings = ConnectorSettings::pinned(identity.format());
        let builder = reqwest::Client::builder();
        let builder = match settings.backend {
            TlsBackend::Native => builder.use_native_tls(),
            TlsBackend::Rustls => builder.use_rustls_tls(),
        };
        let builder = builder.tls_built_in_root_certs(settings.built_in_roots);
        let builder = builder.add_root_certificate(clone_certificate(anchor.parsed()));
        let builder = builder.identity(identity.into_decoded());
        let builder = builder.https_only(settings.https_only);
        match builder.build() {
            Ok(client) => Ok(Connector { settings, anchor: anchor.pem().clone(), client }),
            Err(_) => Err(TlsError::DecodeError),
        }
    }

    /// The settings this connector was built with. They never trust the
    /// platform's roots and never allow plaintext.
    pub fn settings(&self) -> (s: ConnectorSettings)
        ensures
            s == self@.settings,
            !s.built_in_roots,
            s.https_only,
    {
        proof {
            use_type_invariant(self);
        }
        self.settings
    }

    /// The PEM bytes of the anchor that servers are validated against.
    pub fn anchor(&self) -> (r: &Vec<u8>)
        ensures
            r@ == self@.anchor,
    {
        &self.anchor
    }

    /// The client on which the request is sent, as the backend built it.
    pub fn client(&self) -> (r: &reqwest::Client)
        ensures
            *r == self.built(),
    {
        &self.client
    }

    /// Checks a request's target: anything that does not begin with the
    /// secure scheme, in whichever case, is refused with `HandshakeError`
    /// before a socket is opened.
    pub fn check_target(&self, url: &str) -> (r: Result<(), TlsError>)
        ensures
            r is Ok <==> is_secure_target(url.spec_bytes()),
            r is Err ==> fails_with(r, TlsError::HandshakeError),
    {
        if has_prefix_folded(url.as_bytes(), "https://".as_bytes()) {
            Ok(())
        } else {
            Err(TlsError::HandshakeError)
        }
    }

    /// The client that the backend built for this connector.
    pub open spec fn built(self) -> reqwest::Client {
        self@.client
    }
}

} // verus!
