use p2p_perf::address::{
    compose, decompose, normalize_for_dial, Address, Component, ComponentKind, Ipv4,
    MalformedAddressError,
};

fn localhost() -> Ipv4 {
    Ipv4 { a: 127, b: 0, c: 0, d: 1 }
}

fn tcp_address(port: u16) -> Address {
    Address { components: vec![Component::Ip4(localhost()), Component::Tcp(port)] }
}

#[test]
fn decompose_gives_back_composed_host_and_port() {
    let host = Ipv4 { a: 10, b: 1, c: 2, d: 3 };
    let addr = compose(host, 9992);
    assert_eq!(addr.components.len(), 2);
    assert_eq!(decompose(&addr), Ok((host, 9992)));
}

#[test]
fn decompose_reads_the_last_two_components() {
    let addr = Address {
        components: vec![
            Component::Dns("example.org".to_string()),
            Component::Ip4(localhost()),
            Component::Tcp(8080),
        ],
    };
    assert_eq!(decompose(&addr), Ok((localhost(), 8080)));
}

#[test]
fn decompose_rejects_empty_address() {
    let addr = Address { components: vec![] };
    assert_eq!(decompose(&addr), Err(MalformedAddressError::ExpectedTcp { found: None }));
}

#[test]
fn decompose_rejects_missing_port() {
    let addr = Address { components: vec![Component::Ip4(localhost()), Component::Udp(9992)] };
    assert_eq!(
        decompose(&addr),
        Err(MalformedAddressError::ExpectedTcp { found: Some(ComponentKind::Udp) })
    );
}

#[test]
fn decompose_rejects_missing_host() {
    let addr = Address { components: vec![Component::Tcp(9992)] };
    assert_eq!(decompose(&addr), Err(MalformedAddressError::ExpectedIp4 { found: None }));
    let addr = Address {
        components: vec![Component::Dns("example.org".to_string()), Component::Tcp(9992)],
    };
    assert_eq!(
        decompose(&addr),
        Err(MalformedAddressError::ExpectedIp4 { found: Some(ComponentKind::Dns) })
    );
}

#[test]
fn normalize_strips_trailing_peer_id() {
    let mut addr = tcp_address(9992);
    addr.components.push(Component::P2p(vec![0x12, 0x20, 0xab]));
    let (dial, dropped) = normalize_for_dial(addr);
    assert!(dropped);
    assert_eq!(dial.components.len(), 2);
    assert_eq!(decompose(&dial), Ok((localhost(), 9992)));
}

#[test]
fn normalize_keeps_address_without_peer_id() {
    let (dial, dropped) = normalize_for_dial(tcp_address(1234));
    assert!(!dropped);
    assert_eq!(dial.components.len(), 2);
    assert_eq!(decompose(&dial), Ok((localhost(), 1234)));
}

#[test]
fn normalize_twice_equals_once() {
    let mut addr = tcp_address(9992);
    addr.components.push(Component::P2p(vec![1, 2, 3]));
    let (once, dropped_once) = normalize_for_dial(addr);
    let n = once.components.len();
    let (twice, dropped_twice) = normalize_for_dial(once);
    assert!(dropped_once);
    assert!(!dropped_twice);
    assert_eq!(twice.components.len(), n);
    assert_eq!(decompose(&twice), Ok((localhost(), 9992)));
}

#[test]
fn component_kind_names_each_variant() {
    assert_eq!(Component::Quic.kind(), ComponentKind::Quic);
    assert_eq!(Component::P2p(vec![]).kind(), ComponentKind::P2p);
    assert_eq!(Component::Ip6(vec![0; 16]).kind(), ComponentKind::Ip6);
    assert_eq!(Component::Other("ws".to_string()).kind(), ComponentKind::Other);
}
