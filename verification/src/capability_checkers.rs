use vstd::prelude::*;
use std::sync::Arc;
use std::sync::Mutex;
use crate::peer::PeerAddr;
use crate::seeds::contains_addr;

verus! {

#[verifier::external_type_specification]
#[verifier::external_body]
#[verifier::reject_recursive_types(T)]
pub struct ExMutex<T: ?Sized>(std::sync::Mutex<T>);

/// A capability that a peer must have to be kept by the crawl.
#[derive(Clone)]
pub enum CapabilitiesChecker {
    /// The peer answers a TCP connection within this many milliseconds.
    Latency(u32),
    /// The peer serves the RPC interface. The ports listed are scanned besides
    /// the port that the peer advertises; if the list is empty, only the
    /// advertised port is tried.
    Rpc(Vec<u16>),
    /// The peer publishes on ZMQ on one of these ports.
    Zmq(Vec<u16>),
    /// The peer's chain is at least as high as the shared height. The height of
    /// the network cannot be known by the crawl, so it is given from outside and
    /// may change while the crawl runs.
    ChainSynced(Arc<Mutex<u64>>),
    /// `true`: keep only spy nodes; `false`: exclude spy nodes. If the list is
    /// empty, the peer is checked by pinging it; otherwise only the list decides.
    SpyNode(bool, Vec<PeerAddr>),
    /// `true`: keep only seed nodes; `false`: exclude seed nodes.
    SeedNode(bool),
}

/// A peer's chain at `current_height` is synced with the required height when it is
/// at least that height. No height could be read (`None`): the peer is not synced.
pub open spec fn synced_spec(current_height: u64, required: Option<u64>) -> bool {
    match required {
        Some(h) => current_height >= h,
        None => false,
    }
}

/// Whether a peer whose chain is at `current_height` is synced with the
/// `required` height, as read from the shared value (`None`: it could not be read).
pub fn is_blockchain_synced(current_height: u64, required: Option<u64>) -> (r: bool)
    ensures
        r == synced_spec(current_height, required),
{
    match required {
        Some(h) => current_height >= h,
        None => false,
    }
}

/// The latency kept for a peer whose TCP connection completed after
/// `elapsed_ms` milliseconds (`None`: it did not complete before the timeout).
/// The milliseconds are truncated to `u32`, and must not exceed `max`.
pub open spec fn latency_spec(elapsed_ms: Option<u128>, max: u32) -> Option<u32> {
    match elapsed_ms {
        Some(ms) => if (ms as u32) <= max { Some(ms as u32) } else { None },
        None => None,
    }
}

/// The latency in milliseconds if the peer is fast enough, `None` otherwise.
pub fn is_latency_capable(elapsed_ms: Option<u128>, max: u32) -> (r: Option<u32>)
    ensures
        r == latency_spec(elapsed_ms, max),
        r matches Some(ms) ==> ms <= max,
{
    match elapsed_ms {
        Some(ms) => {
            let ms32: u32 = ms as u32;
            if ms32 <= max {
                Some(ms32)
            } else {
                None
            }
        },
        None => None,
    }
}

/// The peer ids that a peer answered to three pings, in order.
#[derive(Clone, Copy, Debug, PartialEq, Eq, Structural)]
pub struct PingIds {
    pub first: u64,
    pub second: u64,
    pub third: u64,
}

/// A peer is a spy node when the peer id given in its handshake and the ids
/// answered to three pings are not all equal. `None`: a ping could not be made.
pub open spec fn spynode_by_pings_spec(peer_id: u64, pings: Option<PingIds>) -> Option<bool> {
    match pings {
        Some(ids) => Some(peer_id != ids.first || ids.first != ids.second || ids.second != ids.third),
        None => None,
    }
}

/// If a blacklist is given, only it decides whether a peer is a spy node;
/// with an empty blacklist the peer has to be pinged (`None`).
pub open spec fn spynode_by_blacklist_spec(socket: PeerAddr, blacklist: Seq<PeerAddr>) -> Option<bool> {
    if blacklist.len() == 0 {
        None
    } else {
        Some(blacklist.contains(socket))
    }
}

/// Whether the peer is a spy node, by the blacklist alone; `None` when the
/// blacklist is empty and the peer has to be pinged.
pub fn spynode_by_blacklist(socket: &PeerAddr, blacklist: &Vec<PeerAddr>) -> (r: Option<bool>)
    ensures
        r == spynode_by_blacklist_spec(*socket, blacklist@),
{
    if blacklist.len() == 0 {
        None
    } else {
        Some(contains_addr(blacklist, socket))
    }
}

/// Whether the peer is a spy node, from the peer ids of its handshake and of three pings.
pub fn spynode_by_pings(peer_id: u64, pings: Option<PingIds>) -> (r: Option<bool>)
    ensures
        r == spynode_by_pings_spec(peer_id, pings),
{
    match pings {
        Some(ids) => Some(peer_id != ids.first || ids.first != ids.second || ids.second != ids.third),
        None => None,
    }
}

/// Whether the peer is a spy node: the blacklist decides if it is not empty;
/// otherwise the pings do (`pings` is only read in that case).
pub open spec fn spynode_spec(socket: PeerAddr, peer_id: u64, blacklist: Seq<PeerAddr>, pings: Option<PingIds>) -> Option<bool> {
    if blacklist.len() == 0 {
        spynode_by_pings_spec(peer_id, pings)
    } else {
        Some(blacklist.contains(socket))
    }
}

/// Whether the peer at `socket`, which gave `peer_id` in its handshake, is a spy node.
pub fn is_spynode(socket: &PeerAddr, peer_id: u64, blacklist: &Vec<PeerAddr>, pings: Option<PingIds>) -> (r: Option<bool>)
    ensures
        r == spynode_spec(*socket, peer_id, blacklist@, pings),
{
    match spynode_by_blacklist(socket, blacklist) {
        Some(b) => Some(b),
        None => spynode_by_pings(peer_id, pings),
    }
}

/// Whether a spy-node verdict lets the peer through: with `keep_only_spynode`
/// only a peer known to be a spy node passes; otherwise every peer not known to
/// be a spy node passes.
pub open spec fn spy_filter_passes(keep_only_spynode: bool, verdict: Option<bool>) -> bool {
    if keep_only_spynode {
        verdict == Some(true)
    } else {
        verdict != Some(true)
    }
}

/// The error text that a ZMQ request socket reports when it meets a ZMQ
/// publisher: a node with `zmq-pub` enabled answers on the port.
pub open spec fn zmq_pub_refusal() -> Seq<char> {
    "Provided sockets combination is not compatible"@
}

/// Whether the error message of a ZMQ connection attempt shows a ZMQ publisher on the port.
pub fn is_zmq_pub_refusal(msg: &str) -> (r: bool)
    ensures
        r == (msg@ == zmq_pub_refusal()),
{
    let expected = "Provided sockets combination is not compatible".to_owned();
    let got = msg.to_owned();
    got == expected
}

/// The search for a port on which a service answers: the port that the peer
/// advertises is checked first; then the open ports are checked one by one as
/// the port scan finds them; the first port whose check passes is the result.
#[derive(Clone, Copy, Debug, PartialEq, Eq, Structural)]
pub enum PortSearch {
    /// The service is to be checked on this port.
    Check(u16),
    /// The next open port of the scan is awaited.
    AwaitOpenPort,
    /// The service answered on this port.
    Found(u16),
    /// No port answered.
    NotFound,
}

impl PortSearch {
    /// Starts a search; `advertised` is the port that the peer advertises, `0` for none.
    pub fn start(advertised: u16) -> (r: PortSearch)
        ensures
            advertised != 0 ==> r == PortSearch::Check(advertised),
            advertised == 0 ==> r == PortSearch::AwaitOpenPort,
    {
        if advertised != 0 {
            PortSearch::Check(advertised)
        } else {
            PortSearch::AwaitOpenPort
        }
    }

    /// The service check on the port of `Check` returned `passed`.
    pub fn service_checked(self, passed: bool) -> (r: PortSearch)
        requires
            self is Check,
        ensures
            passed ==> r == PortSearch::Found(self->Check_0),
            !passed ==> r == PortSearch::AwaitOpenPort,
    {
        match self {
            PortSearch::Check(port) => if passed {
                PortSearch::Found(port)
            } else {
                PortSearch::AwaitOpenPort
            },
            _ => self,
        }
    }

    /// The port scan gave its next open port (`None`: the scan is over).
    pub fn open_port(self, port: Option<u16>) -> (r: PortSearch)
        requires
            self is AwaitOpenPort,
        ensures
            port matches Some(p) ==> r == PortSearch::Check(p),
            port is None ==> r == PortSearch::NotFound,
    {
        match port {
            Some(p) => PortSearch::Check(p),
            None => PortSearch::NotFound,
        }
    }

    /// The port found, once the search is over.
    pub fn result(&self) -> (r: Option<Option<u16>>)
        ensures
            r == (match *self {
                PortSearch::Found(p) => Some(Some(p)),
                PortSearch::NotFound => Some(None),
                _ => None,
            }),
    {
        match *self {
            PortSearch::Found(p) => Some(Some(p)),
            PortSearch::NotFound => Some(None),
            _ => None,
        }
    }
}

} // verus!
