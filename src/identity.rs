use vstd::prelude::*;
use libp2p::identity::{DecodingError, Keypair};

verus! {

#[verifier::external_type_specification]
#[verifier::external_body]
pub struct ExKeypair(Keypair);

#[verifier::external_type_specification]
#[verifier::external_body]
pub struct ExDecodingError(DecodingError);

/// Whether the bytes are an RSA private key in PKCS#8 DER form that the
/// key decoder accepts.
pub uninterp spec fn rsa_pkcs8_accepted(der: Seq<u8>) -> bool;

/// The SHA-256 digest of the bytes, as the peer-identifier derivation
/// computes it for long public keys.
pub uninterp spec fn sha256_of(bytes: Seq<u8>) -> Seq<u8>;

/// The peer identifier derived from a public key's protobuf encoding, as a
/// binary multihash (code, digest length, digest): the identity multihash of
/// the encoding when it is short, else its SHA-256 multihash.
pub open spec fn peer_id_spec(public_key: Seq<u8>) -> Seq<u8> {
    if public_key.len() <= 42 {
        seq![0x00u8, public_key.len() as u8] + public_key
    } else {
        seq![0x12u8, 0x20u8] + sha256_of(public_key)
    }
}

/// Relies on `Keypair::generate_ed25519`: a fresh random ed25519 keypair.
#[verifier::external_body]
fn generate_ed25519() -> (k: Keypair) {
    Keypair::generate_ed25519()
}

/// Relies on `Keypair::rsa_from_pkcs8`: it decodes an RSA keypair from
/// PKCS#8 DER and, only when that succeeds, overwrites the input with zeros.
#[verifier::external_body]
fn rsa_from_pkcs8(der: &mut Vec<u8>) -> (r: Result<Keypair, DecodingError>)
    ensures
        r is Ok <==> rsa_pkcs8_accepted(old(der)@),
        r is Ok ==> final(der)@ == Seq::new(old(der)@.len(), |i: int| 0u8),
        r is Err ==> final(der)@ == old(der)@,
{
    Keypair::rsa_from_pkcs8(der.as_mut_slice())
}

/// Relies on `PublicKey::encode_protobuf` and `PeerId::from_public_key`
/// with `PeerId::to_bytes`, applied to the same public key: the identifier
/// is the identity multihash of the key's encoding when that is at most 42
/// bytes long, else the SHA-256 multihash of it.
#[verifier::external_body]
fn public_key_and_peer_id(k: &Keypair) -> (r: (Vec<u8>, Vec<u8>))
    ensures
        r.0@.len() <= 42 ==> r.1@ == seq![0x00u8, r.0@.len() as u8] + r.0@,
        r.0@.len() > 42 ==> r.1@ == seq![0x12u8, 0x20u8] + sha256_of(r.0@),
{
    let public = k.public();
    (public.encode_protobuf(), libp2p::PeerId::from_public_key(&public).to_bytes())
}

/// A key encoding that cannot be decoded.
#[derive(Clone, Copy, Debug, PartialEq, Eq, Structural)]
pub struct KeyFormatError;

/// The process's keypair, with its public key's protobuf encoding and the
/// peer identifier derived from it.
pub struct PeerIdentity {
    keypair: Keypair,
    public_key: Vec<u8>,
    peer_id: Vec<u8>,
}

impl PeerIdentity {
    #[verifier::type_invariant]
    spec fn derived(&self) -> bool {
        self.peer_id@ == peer_id_spec(self.public_key@)
    }

    /// The protobuf encoding of the public key.
    pub closed spec fn public_key_view(&self) -> Seq<u8> {
        self.public_key@
    }

    fn from_keypair(keypair: Keypair) -> (p: PeerIdentity) {
        let (public_key, peer_id) = public_key_and_peer_id(&keypair);
        assert(peer_id@ == peer_id_spec(public_key@));
        PeerIdentity { keypair, public_key, peer_id }
    }

    /// A fresh ed25519 identity.
    pub fn generate() -> (p: PeerIdentity) {
        PeerIdentity::from_keypair(generate_ed25519())
    }

    /// An RSA identity from a PKCS#8 DER private key. The key bytes are
    /// consumed; on success the copy that was decoded is wiped.
    pub fn load(pkcs8_der: Vec<u8>) -> (r: Result<PeerIdentity, KeyFormatError>)
        ensures
            r is Ok <==> rsa_pkcs8_accepted(pkcs8_der@),
    {
        let mut der = pkcs8_der;
        match rsa_from_pkcs8(&mut der) {
            Ok(keypair) => Ok(PeerIdentity::from_keypair(keypair)),
            Err(_) => Err(KeyFormatError),
        }
    }

    /// The protobuf encoding of the public key.
    pub fn public_key(&self) -> (k: &Vec<u8>)
        ensures
            k@ == self.public_key_view(),
    {
        &self.public_key
    }

    /// The peer identifier in its binary multihash form, derived from the
    /// public key.
    pub fn peer_id(&self) -> (id: Vec<u8>)
        ensures
            id@ == peer_id_spec(self.public_key_view()),
    {
        proof {
            use_type_invariant(self);
        }
        let mut id: Vec<u8> = Vec::new();
        let mut i: usize = 0;
        while i < self.peer_id.len()
            invariant
                i <= self.peer_id@.len(),
                id@ == self.peer_id@.subrange(0, i as int),
            decreases self.peer_id@.len() - i,
        {
            id.push(self.peer_id[i]);
            i += 1;
        }
        proof {
            assert(id@ =~= self.peer_id@);
        }
        id
    }

    /// The keypair, for the transport's handshakes.
    pub fn into_keypair(self) -> (k: Keypair) {
        self.keypair
    }
}

} // verus!
