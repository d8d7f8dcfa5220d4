use vstd::prelude::*;
use crate::peer::{PeerAddr, ipv4_bits};

verus! {

/// The port on which the seed nodes listen for peer-to-peer connections.
pub const SEED_PORT: u16 = 18080;

/// The socket address `a.b.c.d:18080` of a seed node.
pub open spec fn seed(a: u8, b: u8, c: u8, d: u8) -> PeerAddr {
    PeerAddr::V4 { ip: ipv4_bits(a, b, c, d) as u32, port: SEED_PORT }
}

/// The seed nodes of the Monero network, in the order the crawl starts from them.
pub open spec fn seed_nodes_spec() -> Seq<PeerAddr> {
    seq![
        seed(176, 9, 0, 187),
        seed(88, 198, 163, 90),
        seed(66, 85, 74, 134),
        seed(51, 79, 173, 165),
        seed(192, 99, 8, 110),
        seed(37, 187, 74, 171),
        seed(88, 99, 195, 15),
    ]
}

/// The seed nodes of the Monero network.
pub fn seed_nodes() -> (r: Vec<PeerAddr>)
    ensures
        r@ == seed_nodes_spec(),
{
    let mut r: Vec<PeerAddr> = Vec::new();
    r.push(PeerAddr::v4(176, 9, 0, 187, SEED_PORT));
    r.push(PeerAddr::v4(88, 198, 163, 90, SEED_PORT));
    r.push(PeerAddr::v4(66, 85, 74, 134, SEED_PORT));
    r.push(PeerAddr::v4(51, 79, 173, 165, SEED_PORT));
    r.push(PeerAddr::v4(192, 99, 8, 110, SEED_PORT));
    r.push(PeerAddr::v4(37, 187, 74, 171, SEED_PORT));
    r.push(PeerAddr::v4(88, 99, 195, 15, SEED_PORT));
    assert(r@ =~= seed_nodes_spec());
    r
}

/// Whether `addr` occurs in `list`.
pub fn contains_addr(list: &Vec<PeerAddr>, addr: &PeerAddr) -> (r: bool)
    ensures
        r == list@.contains(*addr),
{
    let mut i: usize = 0;
    while i < list.len()
        invariant
            i <= list@.len(),
            forall|j: int| 0 <= j < i ==> list@[j] != *addr,
        decreases list@.len() - i,
    {
        if list[i] == *addr {
            assert(list@[i as int] == *addr);
            return true;
        }
        i = i + 1;
    }
    false
}

/// Whether `addr` is one of the seed nodes.
pub fn is_seed_node(addr: &PeerAddr) -> (r: bool)
    ensures
        r == seed_nodes_spec().contains(*addr),
{
    let seeds = seed_nodes();
    contains_addr(&seeds, addr)
}

} // verus!
