use vstd::prelude::*;
use crate::address::{Address, normalize_for_dial, normalized, ends_with_peer_id};
use crate::measure::MeasurementResult;
use crate::transport::{
    ComposedTransport, Role, SecurityMode, SecurityPolicy, TransportConstructionError, build_transport,
    default_security, default_security_spec, serves,
};

verus! {

/// Everything the client needs before it dials.
#[derive(Debug)]
pub struct ClientSetup {
    pub transport: ComposedTransport,
    /// The handshake the client proposes.
    pub security: SecurityMode,
    /// The server address to dial, without a peer identifier.
    pub dial: Address,
    /// A peer identifier was dropped from the given address; the caller
    /// warns that it is ignored.
    pub peer_id_dropped: bool,
}

#[derive(Clone, Copy, Debug, PartialEq, Eq, Structural)]
pub enum ClientSetupError {
    Transport(TransportConstructionError),
    /// No transport of the client serves the server address.
    Unroutable,
}

/// The client's transport: the chosen handshake, or the default one, over
/// the stream transport alone.
pub open spec fn client_transport(security: Option<SecurityMode>) -> ComposedTransport {
    ComposedTransport {
        role: Role::Initiator,
        security: SecurityPolicy::Only(
            match security {
                Some(m) => m,
                None => default_security_spec(),
            },
        ),
        datagram: false,
    }
}

/// Builds the client's transport, with the authenticated-encryption
/// handshake unless another is chosen and without the datagram transport,
/// and readies the server address for dialing.
pub fn prepare_client(server_address: Address, security: Option<SecurityMode>) -> (r: Result<
    ClientSetup,
    ClientSetupError,
>)
    ensures
        r is Ok <==> serves(client_transport(security), normalized(server_address@)),
        r is Err ==> r == Err::<ClientSetup, ClientSetupError>(ClientSetupError::Unroutable),
        r matches Ok(s) ==> {
            &&& s.security == (match security {
                Some(m) => m,
                None => default_security_spec(),
            })
            &&& s.transport == client_transport(security)
            &&& s.dial@ == normalized(server_address@)
            &&& s.peer_id_dropped == ends_with_peer_id(server_address@)
        },
{
    let mode = match security {
        Some(m) => m,
        None => default_security(),
    };
    let transport = match build_transport(Role::Initiator, SecurityPolicy::Only(mode), false) {
        Ok(t) => t,
        Err(e) => {
            return Err(ClientSetupError::Transport(e));
        },
    };
    let (dial, peer_id_dropped) = normalize_for_dial(server_address);
    if transport.supports(&dial) {
        Ok(ClientSetup { transport, security: mode, dial, peer_id_dropped })
    } else {
        Err(ClientSetupError::Unroutable)
    }
}

/// An event of the client's connection, as the driver sees it.
#[derive(Clone, Copy, Debug, PartialEq, Eq, Structural)]
pub enum ClientEvent {
    /// The benchmark produced its result.
    Measured(MeasurementResult),
    /// A dial to the server started.
    Dialing,
    ConnectionEstablished,
    /// Any other connection or transport event.
    Other,
}

#[derive(Clone, Copy, Debug, PartialEq, Eq, Structural)]
pub enum ClientDecision {
    /// Keep waiting for the result.
    Wait,
    /// Report the result and stop.
    Report(MeasurementResult),
    /// Abort, reporting the event.
    Fatal,
}

/// The client waits for exactly one result: dialing and a new connection
/// are ignored and any other event is fatal.
pub fn client_on_event(e: ClientEvent) -> (d: ClientDecision)
    ensures
        d == (match e {
            ClientEvent::Measured(r) => ClientDecision::Report(r),
            ClientEvent::Dialing => ClientDecision::Wait,
            ClientEvent::ConnectionEstablished => ClientDecision::Wait,
            ClientEvent::Other => ClientDecision::Fatal,
        }),
{
    match e {
        ClientEvent::Measured(r) => ClientDecision::Report(r),
        ClientEvent::Dialing => ClientDecision::Wait,
        ClientEvent::ConnectionEstablished => ClientDecision::Wait,
        ClientEvent::Other => ClientDecision::Fatal,
    }
}

/// Everything the server needs before it listens.
#[derive(Debug)]
pub struct ServerSetup {
    pub transport: ComposedTransport,
    /// The addresses to listen on, the datagram one first.
    pub listen: Vec<Address>,
}

#[derive(Clone, Copy, Debug, PartialEq, Eq, Structural)]
pub enum ServerSetupError {
    /// Neither a stream nor a datagram listen address was given.
    NoListenAddress,
    Transport(TransportConstructionError),
    /// The composed transport cannot listen on a given address.
    UnsupportedListenAddress,
}

impl ServerSetupError {
    pub fn message(&self) -> (s: &'static str)
        ensures
            *self == ServerSetupError::NoListenAddress ==> s@ == "Provide at least one listen address."@,
            *self is Transport ==> s@ == "The transport could not be composed."@,
            *self == ServerSetupError::UnsupportedListenAddress ==> s@
                == "A listen address is not supported by the transport."@,
    {
        match self {
            ServerSetupError::NoListenAddress => "Provide at least one listen address.",
            ServerSetupError::Transport(_) => "The transport could not be composed.",
            ServerSetupError::UnsupportedListenAddress => "A listen address is not supported by the transport.",
        }
    }
}

/// The server's transport: every handshake, with the datagram transport
/// when it is asked for.
pub open spec fn server_transport(datagram: bool) -> ComposedTransport {
    ComposedTransport { role: Role::Responder, security: SecurityPolicy::All, datagram }
}

/// Builds the server's transport, which accepts every handshake and offers
/// the datagram transport when a datagram address is given, and lists the
/// addresses to listen on. Fails before anything listens when none is given
/// or when the transport cannot listen on one of them.
pub fn prepare_server(tcp: Option<Address>, quic: Option<Address>) -> (r: Result<ServerSetup, ServerSetupError>)
    ensures
        (r == Err::<ServerSetup, ServerSetupError>(ServerSetupError::NoListenAddress)) <==> (tcp is None
            && quic is None),
        (r == Err::<ServerSetup, ServerSetupError>(ServerSetupError::UnsupportedListenAddress)) <==> (
        !(tcp is None && quic is None) && ((tcp matches Some(t) && !serves(server_transport(quic is Some), t@))
            || (quic matches Some(q) && !serves(server_transport(quic is Some), q@)))),
        r is Ok || r == Err::<ServerSetup, ServerSetupError>(ServerSetupError::NoListenAddress) || r
            == Err::<ServerSetup, ServerSetupError>(ServerSetupError::UnsupportedListenAddress),
        r matches Ok(s) ==> {
            &&& s.transport == server_transport(quic is Some)
            &&& s.listen@.len() == (if quic is Some { 1int } else { 0 }) + (if tcp is Some { 1int } else { 0 })
            &&& quic matches Some(q) ==> s.listen@[0]@ == q@
            &&& tcp matches Some(t) ==> s.listen@.last()@ == t@
        },
{
    if tcp.is_none() && quic.is_none() {
        return Err(ServerSetupError::NoListenAddress);
    }
    let datagram = quic.is_some();
    let transport = match build_transport(Role::Responder, SecurityPolicy::All, datagram) {
        Ok(t) => t,
        Err(e) => {
            return Err(ServerSetupError::Transport(e));
        },
    };
    let mut listen: Vec<Address> = Vec::new();
    if let Some(q) = quic {
        if !transport.supports(&q) {
            return Err(ServerSetupError::UnsupportedListenAddress);
        }
        listen.push(q);
    }
    if let Some(t) = tcp {
        if !transport.supports(&t) {
            return Err(ServerSetupError::UnsupportedListenAddress);
        }
        listen.push(t);
    }
    Ok(ServerSetup { transport, listen })
}

} // verus!
