use vstd::prelude::*;
use crate::address::{Address, Component};

verus! {

/// The security handshake run over a stream-oriented base transport.
#[derive(Clone, Copy, Debug, PartialEq, Eq, Structural)]
pub enum SecurityMode {
    Plaintext,
    /// Authenticated-encryption handshake (Noise).
    AuthenticatedEncryption,
    /// Certificate-based handshake (TLS).
    CertificateBased,
}

/// Which handshakes a transport accepts: one, or (responder only) any of
/// them, decided per connection during negotiation.
#[derive(Clone, Copy, Debug, PartialEq, Eq, Structural)]
pub enum SecurityPolicy {
    Only(SecurityMode),
    All,
}

#[derive(Clone, Copy, Debug, PartialEq, Eq, Structural)]
pub enum Role {
    /// Dials and drives the benchmark (client).
    Initiator,
    /// Listens and serves the benchmark (server).
    Responder,
}

/// The base transport a connection runs over.
#[derive(Clone, Copy, Debug, PartialEq, Eq, Structural)]
pub enum BaseTransport {
    /// Stream-oriented (TCP), upgraded by a security handshake and a
    /// stream multiplexer.
    Stream,
    /// Datagram-oriented (QUIC), which carries its own certificate-based
    /// security and multiplexing.
    Datagram,
}

/// A composed transport: the stream transport with its security policy,
/// and optionally the datagram transport beside it.
#[derive(Clone, Copy, Debug, PartialEq, Eq, Structural)]
pub struct ComposedTransport {
    pub role: Role,
    pub security: SecurityPolicy,
    pub datagram: bool,
}

#[derive(Clone, Copy, Debug, PartialEq, Eq, Structural)]
pub enum TransportConstructionError {
    /// Only a responder can accept any handshake; an initiator proposes one.
    AllModesOnInitiator,
    /// The datagram transport secures connections with certificates, which
    /// the requested policy does not admit.
    DatagramNeedsCertificates { requested: SecurityMode },
}

/// Handshake used when none is chosen.
pub open spec fn default_security_spec() -> SecurityMode {
    SecurityMode::AuthenticatedEncryption
}

pub open spec fn admits(p: SecurityPolicy, m: SecurityMode) -> bool {
    match p {
        SecurityPolicy::Only(x) => x == m,
        SecurityPolicy::All => true,
    }
}

pub open spec fn built(role: Role, security: SecurityPolicy, datagram: bool) -> Result<
    ComposedTransport,
    TransportConstructionError,
> {
    if role == Role::Initiator && security == SecurityPolicy::All {
        Err(TransportConstructionError::AllModesOnInitiator)
    } else if datagram && !admits(security, SecurityMode::CertificateBased) {
        Err(
            TransportConstructionError::DatagramNeedsCertificates {
                requested: security->Only_0,
            },
        )
    } else {
        Ok(ComposedTransport { role, security, datagram })
    }
}

/// The handshake a connection over `base` completes with when the dialer
/// proposes `proposed`, or `None` when the listener refuses it.
pub open spec fn negotiated(t: ComposedTransport, base: BaseTransport, proposed: SecurityMode) -> Option<
    SecurityMode,
> {
    match base {
        BaseTransport::Stream => if admits(t.security, proposed) {
            Some(proposed)
        } else {
            None
        },
        BaseTransport::Datagram => if t.datagram && proposed == SecurityMode::CertificateBased {
            Some(SecurityMode::CertificateBased)
        } else {
            None
        },
    }
}

/// The base transport an address is dialed or listened on: a TCP port
/// selects the stream transport, a QUIC component the datagram one.
pub open spec fn base_for(s: Seq<Component>) -> Option<BaseTransport> {
    if s.len() == 0 {
        None
    } else {
        match s.last() {
            Component::Tcp(_) => Some(BaseTransport::Stream),
            Component::Quic => Some(BaseTransport::Datagram),
            _ => None,
        }
    }
}

/// The transport can dial or listen on an address: the address selects the
/// stream transport, or the datagram transport when it is available.
pub open spec fn serves(t: ComposedTransport, s: Seq<Component>) -> bool {
    match base_for(s) {
        Some(BaseTransport::Stream) => true,
        Some(BaseTransport::Datagram) => t.datagram,
        None => false,
    }
}

pub fn default_security() -> (m: SecurityMode)
    ensures
        m == default_security_spec(),
{
    SecurityMode::AuthenticatedEncryption
}

/// Whether `policy` accepts the handshake `mode`.
pub fn policy_admits(policy: SecurityPolicy, mode: SecurityMode) -> (r: bool)
    ensures
        r == admits(policy, mode),
{
    match policy {
        SecurityPolicy::Only(x) => x == mode,
        SecurityPolicy::All => true,
    }
}

/// Composes a transport for `role`, refusing inconsistent compositions.
pub fn build_transport(role: Role, security: SecurityPolicy, datagram: bool) -> (r: Result<
    ComposedTransport,
    TransportConstructionError,
>)
    ensures
        r == built(role, security, datagram),
{
    if role == Role::Initiator && security == SecurityPolicy::All {
        return Err(TransportConstructionError::AllModesOnInitiator);
    }
    if datagram && !policy_admits(security, SecurityMode::CertificateBased) {
        let requested = match security {
            SecurityPolicy::Only(m) => m,
            SecurityPolicy::All => SecurityMode::CertificateBased,
        };
        return Err(TransportConstructionError::DatagramNeedsCertificates { requested });
    }
    Ok(ComposedTransport { role, security, datagram })
}

/// The handshake negotiated by the listener `t` for a dialer that proposes
/// `proposed` over `base`.
pub fn negotiate(t: &ComposedTransport, base: BaseTransport, proposed: SecurityMode) -> (r: Option<
    SecurityMode,
>)
    ensures
        r == negotiated(*t, base, proposed),
{
    match base {
        BaseTransport::Stream => if policy_admits(t.security, proposed) {
            Some(proposed)
        } else {
            None
        },
        BaseTransport::Datagram => if t.datagram && proposed == SecurityMode::CertificateBased {
            Some(SecurityMode::CertificateBased)
        } else {
            None
        },
    }
}

/// The base transport that serves `addr`, if any.
pub fn transport_for(addr: &Address) -> (r: Option<BaseTransport>)
    ensures
        r == base_for(addr@),
{
    let n = addr.components.len();
    if n == 0 {
        return None;
    }
    match &addr.components[n - 1] {
        Component::Tcp(_) => Some(BaseTransport::Stream),
        Component::Quic => Some(BaseTransport::Datagram),
        _ => None,
    }
}

impl ComposedTransport {
    /// Whether this transport can dial or listen on `addr`.
    pub fn supports(&self, addr: &Address) -> (r: bool)
        ensures
            r == serves(*self, addr@),
    {
        match transport_for(addr) {
            Some(BaseTransport::Stream) => true,
            Some(BaseTransport::Datagram) => self.datagram,
            None => false,
        }
    }
}

/// A dialer's own transport only ever completes the handshake it proposed;
/// a listener that accepts every handshake agrees to whatever a dialer
/// proposes over the stream transport.
pub proof fn lemma_negotiation_keeps_proposal(t: ComposedTransport, base: BaseTransport, m: SecurityMode)
    ensures
        negotiated(t, base, m) matches Some(x) ==> x == m,
        t.security == SecurityPolicy::All ==> negotiated(t, BaseTransport::Stream, m) == Some(m),
{
}

} // verus!
