use p2p_perf::identity::{KeyFormatError, PeerIdentity};

#[test]
fn generated_identity_has_stable_peer_id() {
    let id = PeerIdentity::generate();
    let a = id.peer_id();
    let b = id.peer_id();
    assert!(!a.is_empty());
    assert_eq!(a, b);
}

#[test]
fn short_public_key_is_embedded_in_peer_id() {
    let id = PeerIdentity::generate();
    let key = id.public_key().clone();
    assert!(key.len() <= 42);
    let mut expected = vec![0x00, key.len() as u8];
    expected.extend_from_slice(&key);
    assert_eq!(id.peer_id(), expected);
}

#[test]
fn two_generated_identities_differ() {
    assert_ne!(PeerIdentity::generate().peer_id(), PeerIdentity::generate().peer_id());
}

#[test]
fn load_rejects_bytes_that_are_not_a_key() {
    assert!(matches!(PeerIdentity::load(vec![1, 2, 3, 4]), Err(KeyFormatError)));
    assert!(matches!(PeerIdentity::load(vec![]), Err(KeyFormatError)));
}
