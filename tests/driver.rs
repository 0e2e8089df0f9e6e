use p2p_perf::address::{decompose, Address, Component, Ipv4};
use p2p_perf::driver::{
    client_on_event, prepare_client, prepare_server, ClientDecision, ClientEvent,
    ClientSetupError, ServerSetupError,
};
use p2p_perf::measure::{
    initiator_step, BenchConfig, InitiatorAction, InitiatorEvent, InitiatorState,
    MeasurementResult,
};
use p2p_perf::transport::{
    build_transport, negotiate, BaseTransport, ComposedTransport, Role, SecurityMode,
    SecurityPolicy,
};

fn host() -> Component {
    Component::Ip4(Ipv4 { a: 127, b: 0, c: 0, d: 1 })
}

fn tcp(port: u16) -> Address {
    Address { components: vec![host(), Component::Tcp(port)] }
}

fn quic(port: u16) -> Address {
    Address { components: vec![host(), Component::Udp(port), Component::Quic] }
}

#[test]
fn client_defaults_to_authenticated_encryption_and_completes() {
    let setup = prepare_client(tcp(9992), None).unwrap();
    assert_eq!(setup.security, SecurityMode::AuthenticatedEncryption);
    assert_eq!(
        setup.transport,
        ComposedTransport {
            role: Role::Initiator,
            security: SecurityPolicy::Only(SecurityMode::AuthenticatedEncryption),
            datagram: false,
        }
    );
    let server = prepare_server(Some(tcp(9992)), None).unwrap();
    assert_eq!(
        negotiate(&server.transport, BaseTransport::Stream, setup.security),
        Some(SecurityMode::AuthenticatedEncryption)
    );

    let cfg = BenchConfig::default();
    let (mut s, mut a) = initiator_step(&cfg, InitiatorState::Idle, InitiatorEvent::Start);
    (s, a) = {
        assert_eq!(a, InitiatorAction::OpenStream);
        initiator_step(&cfg, s, InitiatorEvent::StreamOpened { now_ns: 0 })
    };
    let mut written: u64 = 0;
    while let InitiatorAction::Write { len } = a {
        written += len;
        (s, a) = initiator_step(&cfg, s, InitiatorEvent::Written { len });
    }
    assert_eq!(a, InitiatorAction::CloseWrite);
    let (s, a) = initiator_step(&cfg, s, InitiatorEvent::PeerClosed { now_ns: 1_000_000_000 });
    let result = MeasurementResult { bytes: 104857600, elapsed_ns: 1_000_000_000 };
    assert_eq!(written, 104857600);
    assert_eq!(a, InitiatorAction::Emit { result });
    assert_eq!(s, InitiatorState::Done { result });
    assert_eq!(client_on_event(ClientEvent::Measured(result)), ClientDecision::Report(result));
}

#[test]
fn client_uses_chosen_security_mode() {
    let setup = prepare_client(tcp(1), Some(SecurityMode::Plaintext)).unwrap();
    assert_eq!(setup.security, SecurityMode::Plaintext);
    assert_eq!(setup.transport.security, SecurityPolicy::Only(SecurityMode::Plaintext));
}

#[test]
fn server_without_listen_address_fails_fast() {
    let r = prepare_server(None, None);
    assert!(matches!(r, Err(ServerSetupError::NoListenAddress)));
    assert_eq!(
        ServerSetupError::NoListenAddress.message(),
        "Provide at least one listen address."
    );
}

#[test]
fn server_listens_datagram_first() {
    let s = prepare_server(Some(tcp(9992)), Some(quic(9993))).unwrap();
    assert_eq!(s.listen.len(), 2);
    assert_eq!(s.listen[0].components.len(), 3);
    assert_eq!(decompose(&s.listen[1]), Ok((Ipv4 { a: 127, b: 0, c: 0, d: 1 }, 9992)));
    assert_eq!(
        s.transport,
        ComposedTransport { role: Role::Responder, security: SecurityPolicy::All, datagram: true }
    );
    let s = prepare_server(Some(tcp(9992)), None).unwrap();
    assert_eq!(s.listen.len(), 1);
    assert!(!s.transport.datagram);
    assert_eq!(
        s.transport,
        build_transport(Role::Responder, SecurityPolicy::All, false).unwrap()
    );
}

#[test]
fn server_refuses_address_it_cannot_listen_on() {
    let udp_only = Address { components: vec![host(), Component::Udp(9992)] };
    assert!(matches!(
        prepare_server(Some(udp_only), None),
        Err(ServerSetupError::UnsupportedListenAddress)
    ));
    assert!(matches!(
        prepare_server(Some(quic(9993)), None),
        Err(ServerSetupError::UnsupportedListenAddress)
    ));
    assert_eq!(
        ServerSetupError::UnsupportedListenAddress.message(),
        "A listen address is not supported by the transport."
    );
}

#[test]
fn client_drops_trailing_peer_id_and_dials() {
    let mut addr = tcp(9992);
    addr.components.push(Component::P2p(vec![0x00, 0x24, 0x08, 0x01]));
    let setup = prepare_client(addr, None).unwrap();
    assert!(setup.peer_id_dropped);
    assert_eq!(setup.dial.components.len(), 2);
    assert_eq!(decompose(&setup.dial), Ok((Ipv4 { a: 127, b: 0, c: 0, d: 1 }, 9992)));
}

#[test]
fn client_without_peer_id_does_not_warn() {
    let setup = prepare_client(tcp(9992), None).unwrap();
    assert!(!setup.peer_id_dropped);
}

#[test]
fn client_refuses_address_it_cannot_dial() {
    assert!(matches!(
        prepare_client(quic(9993), None),
        Err(ClientSetupError::Unroutable)
    ));
    let bare = Address { components: vec![host()] };
    assert!(matches!(prepare_client(bare, None), Err(ClientSetupError::Unroutable)));
}

#[test]
fn client_event_decisions() {
    assert_eq!(client_on_event(ClientEvent::ConnectionEstablished), ClientDecision::Wait);
    assert_eq!(client_on_event(ClientEvent::Dialing), ClientDecision::Wait);
    assert_eq!(client_on_event(ClientEvent::Other), ClientDecision::Fatal);
}
