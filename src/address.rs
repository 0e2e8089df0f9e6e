use vstd::prelude::*;

verus! {

/// An IPv4 host, octet by octet.
#[derive(Clone, Copy, Debug, PartialEq, Eq, Structural)]
pub struct Ipv4 {
    pub a: u8,
    pub b: u8,
    pub c: u8,
    pub d: u8,
}

/// One typed component of a multi-component endpoint address.
#[derive(Debug)]
pub enum Component {
    Ip4(Ipv4),
    Ip6(Vec<u8>),
    Dns(String),
    Tcp(u16),
    Udp(u16),
    Quic,
    /// A peer identifier (the encoded multihash of a public key).
    P2p(Vec<u8>),
    /// Any other protocol, by name.
    Other(String),
}

/// The kind of a component, without its payload; used to name an
/// unexpected component in an error.
#[derive(Clone, Copy, Debug, PartialEq, Eq, Structural)]
pub enum ComponentKind {
    Ip4,
    Ip6,
    Dns,
    Tcp,
    Udp,
    Quic,
    P2p,
    Other,
}

pub open spec fn kind_of(c: Component) -> ComponentKind {
    match c {
        Component::Ip4(_) => ComponentKind::Ip4,
        Component::Ip6(_) => ComponentKind::Ip6,
        Component::Dns(_) => ComponentKind::Dns,
        Component::Tcp(_) => ComponentKind::Tcp,
        Component::Udp(_) => ComponentKind::Udp,
        Component::Quic => ComponentKind::Quic,
        Component::P2p(_) => ComponentKind::P2p,
        Component::Other(_) => ComponentKind::Other,
    }
}

impl Component {
    pub fn kind(&self) -> (k: ComponentKind)
        ensures
            k == kind_of(*self),
    {
        match self {
            Component::Ip4(_) => ComponentKind::Ip4,
            Component::Ip6(_) => ComponentKind::Ip6,
            Component::Dns(_) => ComponentKind::Dns,
            Component::Tcp(_) => ComponentKind::Tcp,
            Component::Udp(_) => ComponentKind::Udp,
            Component::Quic => ComponentKind::Quic,
            Component::P2p(_) => ComponentKind::P2p,
            Component::Other(_) => ComponentKind::Other,
        }
    }
}

/// An endpoint address: an ordered sequence of components, outermost first.
#[derive(Debug)]
pub struct Address {
    pub components: Vec<Component>,
}

impl View for Address {
    type V = Seq<Component>;

    open spec fn view(&self) -> Seq<Component> {
        self.components@
    }
}

/// The address's last component is a peer identifier.
pub open spec fn ends_with_peer_id(s: Seq<Component>) -> bool {
    s.len() > 0 && s.last() is P2p
}

/// The address with a trailing peer identifier removed, if there is one.
pub open spec fn normalized(s: Seq<Component>) -> Seq<Component> {
    if ends_with_peer_id(s) {
        s.drop_last()
    } else {
        s
    }
}

/// Why an address cannot be split into host and port. `found` names the
/// component that stood where the expected one should (`None`: nothing did).
#[derive(Clone, Copy, Debug, PartialEq, Eq, Structural)]
pub enum MalformedAddressError {
    ExpectedTcp { found: Option<ComponentKind> },
    ExpectedIp4 { found: Option<ComponentKind> },
}

/// Host and port read from the last two components, which must be, in
/// order, an IPv4 host and a TCP port.
pub open spec fn decomposed(s: Seq<Component>) -> Result<(Ipv4, u16), MalformedAddressError> {
    if s.len() == 0 {
        Err(MalformedAddressError::ExpectedTcp { found: None })
    } else {
        match s.last() {
            Component::Tcp(port) => {
                if s.len() < 2 {
                    Err(MalformedAddressError::ExpectedIp4 { found: None })
                } else {
                    match s[s.len() - 2] {
                        Component::Ip4(host) => Ok((host, port)),
                        c => Err(MalformedAddressError::ExpectedIp4 { found: Some(kind_of(c)) }),
                    }
                }
            },
            c => Err(MalformedAddressError::ExpectedTcp { found: Some(kind_of(c)) }),
        }
    }
}

/// `prefix` followed by an IPv4 host and a TCP port.
pub open spec fn composed(prefix: Seq<Component>, host: Ipv4, port: u16) -> Seq<Component> {
    prefix.push(Component::Ip4(host)).push(Component::Tcp(port))
}

/// The last two components are an IPv4 host and then a TCP port.
pub open spec fn has_host_and_port(s: Seq<Component>) -> bool {
    s.len() >= 2 && s.last() is Tcp && s[s.len() - 2] is Ip4
}

/// Drops a trailing peer-identifier component, which the dialer does not
/// take embedded in the address. The flag says whether one was dropped, so
/// that the caller can warn about it.
pub fn normalize_for_dial(addr: Address) -> (r: (Address, bool))
    ensures
        r.0@ == normalized(addr@),
        r.1 == ends_with_peer_id(addr@),
{
    let mut addr = addr;
    let n = addr.components.len();
    if n > 0 && matches!(addr.components[n - 1], Component::P2p(_)) {
        let _ = addr.components.pop();
        (addr, true)
    } else {
        (addr, false)
    }
}

/// Splits an address into the IPv4 host and TCP port of its last two
/// components.
pub fn decompose(addr: &Address) -> (r: Result<(Ipv4, u16), MalformedAddressError>)
    ensures
        r == decomposed(addr@),
{
    let n = addr.components.len();
    if n == 0 {
        return Err(MalformedAddressError::ExpectedTcp { found: None });
    }
    let port = match &addr.components[n - 1] {
        Component::Tcp(p) => *p,
        c => {
            return Err(MalformedAddressError::ExpectedTcp { found: Some(c.kind()) });
        },
    };
    if n < 2 {
        return Err(MalformedAddressError::ExpectedIp4 { found: None });
    }
    match &addr.components[n - 2] {
        Component::Ip4(h) => Ok((*h, port)),
        c => Err(MalformedAddressError::ExpectedIp4 { found: Some(c.kind()) }),
    }
}

/// The two-component address of an IPv4 host and a TCP port.
pub fn compose(host: Ipv4, port: u16) -> (a: Address)
    ensures
        a@ == composed(Seq::empty(), host, port),
{
    let mut components: Vec<Component> = Vec::new();
    components.push(Component::Ip4(host));
    components.push(Component::Tcp(port));
    Address { components }
}

/// Splitting an address built from a host and a port, after any prefix,
/// gives back that host and port.
pub proof fn lemma_decompose_composed(prefix: Seq<Component>, host: Ipv4, port: u16)
    ensures
        decomposed(composed(prefix, host, port)) == Ok::<(Ipv4, u16), MalformedAddressError>((host, port)),
{
    let s = composed(prefix, host, port);
    assert(s.last() == Component::Tcp(port));
    assert(s[s.len() - 2] == Component::Ip4(host));
}

/// An address whose last two components are not an IPv4 host and a TCP
/// port is always rejected as malformed; one whose are is always split.
pub proof fn lemma_decompose_fails_iff_malformed(s: Seq<Component>)
    ensures
        decomposed(s) is Err <==> !has_host_and_port(s),
        has_host_and_port(s) ==> composed(s.drop_last().drop_last(), decomposed(s)->Ok_0.0,
            decomposed(s)->Ok_0.1) == s,
{
    if has_host_and_port(s) {
        let p = s.drop_last().drop_last();
        let (h, port) = decomposed(s)->Ok_0;
        assert(composed(p, h, port) =~= s);
    }
}

/// Normalizing an address that does not end in two peer identifiers a
/// second time changes nothing.
pub proof fn lemma_normalize_idempotent(s: Seq<Component>)
    requires
        !(s.len() >= 2 && s.last() is P2p && s[s.len() - 2] is P2p),
    ensures
        normalized(normalized(s)) == normalized(s),
{
    if ends_with_peer_id(s) {
        let t = s.drop_last();
        if t.len() > 0 {
            assert(t.last() == s[s.len() - 2]);
        }
    }
}

} // verus!
