use vstd::prelude::*;

verus! {

/// A socket address of a peer, held as plain integers.
///
/// `V4` holds the IPv4 address as its big-endian `u32` value; `V6` holds the
/// IPv6 address as its big-endian `u128` value together with the flow
/// information and scope id of the socket address.
#[allow(inconsistent_fields)]
#[derive(Clone, Copy, Debug, PartialEq, Eq, Hash, Structural)]
pub enum PeerAddr {
    V4 { ip: u32, port: u16 },
    V6 { ip: u128, port: u16, flowinfo: u32, scope_id: u32 },
}

/// The `u32` value of the IPv4 address `a.b.c.d`.
pub open spec fn ipv4_bits(a: u8, b: u8, c: u8, d: u8) -> int {
    a * 0x100_0000 + b * 0x1_0000 + c * 0x100 + d
}

impl PeerAddr {
    /// The socket address `a.b.c.d:port`.
    pub fn v4(a: u8, b: u8, c: u8, d: u8, port: u16) -> (r: PeerAddr)
        ensures
            r == (PeerAddr::V4 { ip: ipv4_bits(a, b, c, d) as u32, port }),
    {
        let ip: u32 = (a as u32) * 0x100_0000 + (b as u32) * 0x1_0000 + (c as u32) * 0x100 + (d as u32);
        PeerAddr::V4 { ip, port }
    }

    /// The port of the socket address.
    pub fn port(&self) -> (r: u16)
        ensures
            r == self.port_of(),
    {
        match self {
            PeerAddr::V4 { port, .. } => *port,
            PeerAddr::V6 { port, .. } => *port,
        }
    }

    pub open spec fn port_of(self) -> u16 {
        match self {
            PeerAddr::V4 { port, .. } => port,
            PeerAddr::V6 { port, .. } => port,
        }
    }

    /// The same address with its port replaced by `port`.
    pub fn with_port(&self, port: u16) -> (r: PeerAddr)
        ensures
            r == self.with_port_spec(port),
            r.port_of() == port,
    {
        match *self {
            PeerAddr::V4 { ip, .. } => PeerAddr::V4 { ip, port },
            PeerAddr::V6 { ip, flowinfo, scope_id, .. } => PeerAddr::V6 { ip, port, flowinfo, scope_id },
        }
    }

    pub open spec fn with_port_spec(self, port: u16) -> PeerAddr {
        match self {
            PeerAddr::V4 { ip, .. } => PeerAddr::V4 { ip, port },
            PeerAddr::V6 { ip, flowinfo, scope_id, .. } => PeerAddr::V6 { ip, port, flowinfo, scope_id },
        }
    }
}

/// An address found in a peer list: a clear-net socket address, or an address
/// of another network (such as an onion service), which this crawler does not reach.
#[derive(Clone, Copy, Debug, PartialEq, Eq, Structural)]
pub enum NetworkAddr {
    Clear(PeerAddr),
    Other,
}

/// The clear-net addresses of `list`, in order.
pub open spec fn clear_addresses_spec(list: Seq<NetworkAddr>) -> Seq<PeerAddr>
    decreases list.len(),
{
    if list.len() == 0 {
        Seq::empty()
    } else {
        let rest = clear_addresses_spec(list.drop_last());
        match list.last() {
            NetworkAddr::Clear(a) => rest.push(a),
            NetworkAddr::Other => rest,
        }
    }
}

/// Keeps the clear-net socket addresses of a peer list, in order; these are
/// the peers that the crawl reaches next.
pub fn clear_addresses(list: &Vec<NetworkAddr>) -> (r: Vec<PeerAddr>)
    ensures
        r@ == clear_addresses_spec(list@),
{
    let mut r: Vec<PeerAddr> = Vec::new();
    let mut i: usize = 0;
    while i < list.len()
        invariant
            i <= list@.len(),
            r@ == clear_addresses_spec(list@.take(i as int)),
        decreases list@.len() - i,
    {
        proof {
            assert(list@.take(i + 1).drop_last() =~= list@.take(i as int));
        }
        match list[i] {
            NetworkAddr::Clear(a) => r.push(a),
            NetworkAddr::Other => {},
        }
        i = i + 1;
    }
    proof {
        assert(list@.take(list@.len() as int) =~= list@);
    }
    r
}

} // verus!
