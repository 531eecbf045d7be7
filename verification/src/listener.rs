//! The server side as a model: the record of a listener with its one
//! identity and one anchor, and the life of each connection it accepts. A
//! connection carries application data only once the peer has proved an
//! identity that chains to the anchor.

use vstd::prelude::*;
use vstd::string::StringSliceAdditionalSpecFns;

use crate::anchor::{CertificateAuthority, TrustAnchor};
use crate::connector::connect_refusal;
use crate::error::{fails_with, TlsError};
use crate::identity::{Credentials, IdentityFormat, LocalIdentity};
use crate::role::Role;
use crate::text::{contains, occurs_in};

verus! {

/// Where a listener stands in its life.
#[derive(Clone, Copy, Debug, PartialEq, Eq, Structural)]
pub enum ListenerState {
    /// No socket yet.
    Unbound,
    /// The socket is bound; no handshake is accepted yet.
    Bound,
    /// Connections are accepted, each with a handshake of its own.
    Listening,
    /// The socket is gone.
    Closed,
}

/// What can happen to a listener.
#[derive(Clone, Copy, Debug, PartialEq, Eq, Structural)]
pub enum ListenerEvent {
    Bind,
    Listen,
    /// One of its connections ended its handshake, in whichever way.
    Settled(ConnectionState),
    Close,
}

/// Where a connection stands in its life.
#[derive(Clone, Copy, Debug, PartialEq, Eq, Structural)]
pub enum ConnectionState {
    /// Accepted on the transport; the peer has proved nothing yet.
    HandshakeInProgress,
    /// The peer's certificate was validated; requests may be served.
    Established,
    /// Validation failed; the connection was dropped unread.
    Rejected,
    /// The connection is over.
    Closed,
}

/// The next state of a listener. An event that does not fit the state
/// changes nothing, and the end of a connection's handshake never does.
pub open spec fn listener_next(state: ListenerState, event: ListenerEvent) -> ListenerState {
    match (state, event) {
        (ListenerState::Unbound, ListenerEvent::Bind) => ListenerState::Bound,
        (ListenerState::Bound, ListenerEvent::Listen) => ListenerState::Listening,
        (_, ListenerEvent::Close) => ListenerState::Closed,
        _ => state,
    }
}

/// What the TLS layer learned of the peer during a handshake.
pub enum PeerEvidence {
    /// The peer presented no certificate.
    Absent,
    /// The peer presented a certificate.
    Presented {
        /// The PEM bytes of the anchor the chain was checked against.
        anchor: Vec<u8>,
        /// Whether every link of the chain up to that anchor holds.
        chains: bool,
        /// Whether any certificate of the chain is outside its validity.
        expired: bool,
    },
}

/// Whether the evidence proves an identity under the anchor `trusted`: a
/// certificate was presented, its chain was checked against exactly this
/// anchor, the chain holds, and nothing in it has expired.
pub open spec fn proves_identity(evidence: PeerEvidence, trusted: Seq<u8>) -> bool {
    match evidence {
        PeerEvidence::Absent => false,
        PeerEvidence::Presented { anchor, chains, expired } => anchor@ == trusted && chains
            && !expired,
    }
}

/// How a handshake ends under the anchor `trusted`.
pub open spec fn handshake_outcome(evidence: PeerEvidence, trusted: Seq<u8>) -> ConnectionState {
    if proves_identity(evidence, trusted) {
        ConnectionState::Established
    } else {
        ConnectionState::Rejected
    }
}

/// The next state of a connection when its handshake ends: only a handshake
/// in progress can end, and it ends as `handshake_outcome` says.
pub open spec fn connection_next(
    state: ConnectionState,
    evidence: PeerEvidence,
    trusted: Seq<u8>,
) -> ConnectionState {
    if state == ConnectionState::HandshakeInProgress {
        handshake_outcome(evidence, trusted)
    } else {
        state
    }
}

/// The address a listener binds: an IPv4 host and a port.
#[derive(Clone, Copy, Debug)]
pub struct BindAddress {
    pub host: [u8; 4],
    pub port: u16,
}

/// What a listener stands for.
pub struct ListenerView {
    pub state: ListenerState,
    pub address: BindAddress,
    /// The identity it presents.
    pub identity: Credentials,
    /// The anchor it validates clients against.
    pub anchor: TrustAnchor,
}

/// The record of a listener: the address it is to bind, the identity it is
/// to present, the anchor it is to validate clients against, and where it
/// stands in its life. It holds no socket: the transport opens one from this
/// record. It outlives its connections and none of them changes it.
pub struct Listener {
    state: ListenerState,
    address: BindAddress,
    identity: LocalIdentity,
    anchor: CertificateAuthority,
}

impl View for Listener {
    type V = ListenerView;

    closed spec fn view(&self) -> ListenerView {
        ListenerView {
            state: self.state,
            address: self.address,
            identity: self.identity@,
            anchor: self.anchor@,
        }
    }
}

/// Whether a listener can be bound with this identity and this anchor, and
/// the failure if it cannot: the anchor must have been loaded for a server,
/// and the identity must be a PEM pair with a key block of its own, which is
/// all the server's TLS layer reads.
pub open spec fn bind_refusal(
    format: IdentityFormat,
    key: Seq<u8>,
    holder: Role,
) -> Option<TlsError> {
    if holder != Role::Server {
        Some(TlsError::MisplacedTrustAnchor)
    } else if format != IdentityFormat::PemPair || key.len() == 0 {
        Some(TlsError::UnsupportedIdentityFormat)
    } else {
        None
    }
}

/// The words with which the server's transport reports that it could not
/// open its socket.
pub open spec fn socket_refusal() -> Seq<u8> {
    "error creating server listener".spec_bytes()
}

/// How a server that could not start is reported, from the text of the
/// failure: `IoError` where the text speaks of the socket, and `DecodeError`
/// for everything else, which is the TLS layer refusing the key, the
/// certificate or the anchor when it parses them.
pub open spec fn startup_failure_spec(text: Seq<u8>) -> TlsError {
    if occurs_in(socket_refusal(), text) {
        TlsError::IoError
    } else {
        TlsError::DecodeError
    }
}

pub fn startup_failure(text: &[u8]) -> (e: TlsError)
    ensures
        e == startup_failure_spec(text@),
{
    if contains(text, "error creating server listener".as_bytes()) {
        TlsError::IoError
    } else {
        TlsError::DecodeError
    }
}

impl Listener {
    #[verifier::type_invariant]
    spec fn configured(self) -> bool {
        &&& self.state != ListenerState::Unbound
        &&& bind_refusal(self.identity@.format, self.identity@.key, self.anchor@.holder) is None
    }

    /// Records a listener as bound, once its identity and anchor are found
    /// fit for a server. No socket is opened here, and no handshake is
    /// accepted yet.
    ///
    /// The identity's blocks were found by the PEM reader but not parsed, and
    /// the anchor was parsed by the client side's TLS library: the server's
    /// TLS layer parses all three again when it starts, and may still refuse
    /// them. `startup_failure` classes that refusal.
    pub fn bind(address: BindAddress, identity: LocalIdentity, anchor: CertificateAuthority) -> (r:
        Result<Listener, TlsError>)
        ensures
            match bind_refusal(identity@.format, identity@.key, anchor@.holder) {
                Some(e) => fails_with(r, e),
                None => r matches Ok(listener) && listener@ == (ListenerView {
                    state: listener_next(ListenerState::Unbound, ListenerEvent::Bind),
                    address,
                    identity: identity@,
                    anchor: anchor@,
                }),
            },
    {
        if !anchor.serves(Role::Server) {
            return Err(TlsError::MisplacedTrustAnchor);
        }
        if identity.format() != IdentityFormat::PemPair || identity.key().len() == 0 {
            return Err(TlsError::UnsupportedIdentityFormat);
        }
        Ok(Listener { state: ListenerState::Bound, address, identity, anchor })
    }

    /// Takes the listener through one event.
    pub fn apply(&mut self, event: ListenerEvent)
        ensures
            final(self)@ == (ListenerView {
                state: listener_next(old(self)@.state, event),
                ..old(self)@
            }),
    {
        proof {
            use_type_invariant(&*self);
        }
        match event {
            ListenerEvent::Listen => {
                if self.state == ListenerState::Bound {
                    self.state = ListenerState::Listening;
                }
            },
            ListenerEvent::Close => {
                self.state = ListenerState::Closed;
            },
            ListenerEvent::Bind => {},
            ListenerEvent::Settled(_) => {},
        }
    }

    /// Starts accepting connections. Returns whether the listener is
    /// listening afterwards.
    pub fn listen(&mut self) -> (listening: bool)
        ensures
            final(self)@ == (ListenerView {
                state: listener_next(old(self)@.state, ListenerEvent::Listen),
                ..old(self)@
            }),
            listening == (final(self)@.state == ListenerState::Listening),
    {
        self.apply(ListenerEvent::Listen);
        self.state == ListenerState::Listening
    }

    /// Closes the listener for good.
    pub fn close(&mut self)
        ensures
            final(self)@ == (ListenerView { state: ListenerState::Closed, ..old(self)@ }),
    {
        self.apply(ListenerEvent::Close);
    }

    /// Accepts one transport-level connection: a connection with its
    /// handshake still to come, if the listener is listening, and nothing
    /// otherwise. The listener itself is left as it is.
    pub fn accept(&self) -> (c: Option<Connection>)
        ensures
            c is Some <==> self@.state == ListenerState::Listening,
            c matches Some(connection) ==> connection@ == ConnectionState::HandshakeInProgress,
    {
        if self.state == ListenerState::Listening {
            Some(Connection { state: ConnectionState::HandshakeInProgress })
        } else {
            None
        }
    }

    /// Ends the handshake of one connection with what the TLS layer learned
    /// of the peer. The listener is only read.
    pub fn settle(&self, connection: &mut Connection, evidence: &PeerEvidence)
        ensures
            final(connection)@ == connection_next(old(connection)@, *evidence, self@.anchor.pem),
    {
        if connection.state == ConnectionState::HandshakeInProgress {
            let proved = match evidence {
                PeerEvidence::Absent => false,
                PeerEvidence::Presented { anchor, chains, expired } => *chains && !*expired
                    && same_bytes(anchor.as_slice(), self.anchor.pem().as_slice()),
            };
            connection.state = if proved {
                ConnectionState::Established
            } else {
                ConnectionState::Rejected
            };
        }
    }

    pub fn state(&self) -> (s: ListenerState)
        ensures
            s == self@.state,
            s != ListenerState::Unbound,
    {
        proof {
            use_type_invariant(self);
        }
        self.state
    }

    pub fn address(&self) -> (a: BindAddress)
        ensures
            a == self@.address,
    {
        self.address
    }

    /// The PEM certificate block the listener presents.
    pub fn certificate(&self) -> (r: &Vec<u8>)
        ensures
            r@ == self@.identity.certificate,
    {
        self.identity.certificate()
    }

    /// The PEM key block the listener presents. It is never empty.
    pub fn key(&self) -> (r: &Vec<u8>)
        ensures
            r@ == self@.identity.key,
            r@.len() > 0,
    {
        proof {
            use_type_invariant(self);
        }
        self.identity.key()
    }

    /// The PEM bytes of the anchor that clients are validated against.
    pub fn client_anchor(&self) -> (r: &Vec<u8>)
        ensures
            r@ == self@.anchor.pem,
    {
        self.anchor.pem()
    }
}

/// Whether two byte strings are the same.
fn same_bytes(a: &[u8], b: &[u8]) -> (r: bool)
    ensures
        r == (a@ == b@),
{
    if a.len() != b.len() {
        return false;
    }
    let mut i: usize = 0;
    while i < a.len()
        invariant
            a@.len() == b@.len(),
            i <= a@.len(),
            forall|j: int| 0 <= j < i ==> a@[j] == b@[j],
        decreases a@.len() - i,
    {
        if a[i] != b[i] {
            return false;
        }
        i += 1;
    }
    assert(a@ =~= b@);
    true
}

/// One accepted connection. It shares nothing with other connections.
pub struct Connection {
    state: ConnectionState,
}

impl View for Connection {
    type V = ConnectionState;

    closed spec fn view(&self) -> ConnectionState {
        self.state
    }
}

impl Connection {
    pub fn state(&self) -> (s: ConnectionState)
        ensures
            s == self@,
    {
        self.state
    }

    /// Whether the request handler may see this connection: only once it is
    /// established.
    pub fn may_serve(&self) -> (r: bool)
        ensures
            r == (self@ == ConnectionState::Established),
    {
        self.state == ConnectionState::Established
    }

    /// The failure that a rejected connection stands for: every rejection is
    /// a failed certificate validation, whatever the peer did or did not
    /// present.
    pub fn failure(&self) -> (e: Option<TlsError>)
        ensures
            e == if self@ == ConnectionState::Rejected {
                Some(TlsError::CertificateValidationError)
            } else {
                None::<TlsError>
            },
    {
        if self.state == ConnectionState::Rejected {
            Some(TlsError::CertificateValidationError)
        } else {
            None
        }
    }

    /// Ends the connection.
    pub fn close(&mut self)
        ensures
            final(self)@ == ConnectionState::Closed,
    {
        self.state = ConnectionState::Closed;
    }
}

/// A handshake establishes the connection exactly when the peer proved an
/// identity under the listener's anchor.
pub proof fn established_exactly_when_proved(evidence: PeerEvidence, trusted: Seq<u8>)
    ensures
        connection_next(ConnectionState::HandshakeInProgress, evidence, trusted)
            == ConnectionState::Established <==> proves_identity(evidence, trusted),
{
}

/// A connection becomes established in no other way: it was in its
/// handshake, the peer presented a certificate, and the chain holds under
/// the listener's anchor.
pub proof fn established_only_when_proved(
    state: ConnectionState,
    evidence: PeerEvidence,
    trusted: Seq<u8>,
)
    requires
        state != ConnectionState::Established,
        connection_next(state, evidence, trusted) == ConnectionState::Established,
    ensures
        state == ConnectionState::HandshakeInProgress,
        evidence is Presented,
        proves_identity(evidence, trusted),
{
}

/// A peer that proves no identity under the listener's anchor is rejected,
/// and the listener is where it was: whatever way a handshake ends, the
/// listener's state does not move.
pub proof fn rejection_is_local(state: ListenerState, evidence: PeerEvidence, trusted: Seq<u8>)
    requires
        !proves_identity(evidence, trusted),
    ensures
        handshake_outcome(evidence, trusted) == ConnectionState::Rejected,
        listener_next(state, ListenerEvent::Settled(handshake_outcome(evidence, trusted)))
            == state,
{
}

/// A peer that presents no certificate fares exactly as one whose
/// certificate does not chain to the anchor.
pub proof fn absent_is_untrusted(
    state: ConnectionState,
    trusted: Seq<u8>,
    anchor: Vec<u8>,
    expired: bool,
)
    ensures
        connection_next(state, PeerEvidence::Absent, trusted) == connection_next(
            state,
            PeerEvidence::Presented { anchor, chains: false, expired },
            trusted,
        ),
{
}

/// Anchors are not interchangeable: evidence that proves an identity under
/// one anchor proves none under any other.
pub proof fn anchors_not_interchangeable(
    evidence: PeerEvidence,
    issuing: Seq<u8>,
    swapped: Seq<u8>,
)
    requires
        proves_identity(evidence, issuing),
        swapped != issuing,
    ensures
        handshake_outcome(evidence, swapped) == ConnectionState::Rejected,
{
}

/// No anchor serves both sides: one that a listener can be bound with is
/// refused by every connector.
pub proof fn anchor_serves_one_side(format: IdentityFormat, key: Seq<u8>, holder: Role)
    requires
        bind_refusal(format, key, holder) is None,
    ensures
        connect_refusal(holder) == Some(TlsError::MisplacedTrustAnchor),
{
}

} // verus!
