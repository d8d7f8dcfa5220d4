use vstd::prelude::*;
use std::sync::Arc;
use std::time::Duration;
use tokio::sync::Semaphore;
use rand::TryRng;
use crate::peer::PeerAddr;
use crate::seeds::{seed_nodes, seed_nodes_spec};
use crate::capability_checkers::CapabilitiesChecker;

verus! {

#[verifier::external_type_specification]
#[verifier::external_body]
pub struct ExSemaphore(tokio::sync::Semaphore);

/// The Monero network that the crawl joins.
#[derive(Clone, Copy, Debug, PartialEq, Eq, Structural)]
pub enum Network {
    Mainnet,
    Testnet,
    Stagenet,
}

impl Default for Network {
    fn default() -> (r: Network)
        ensures
            r == Network::Mainnet,
    {
        Network::Mainnet
    }
}

/// The duration `Duration::from_secs(secs)`.
pub uninterp spec fn duration_of_secs(secs: u64) -> Duration;

/// Calls `Duration::from_secs`, which builds the duration of `secs` whole
/// seconds and never panics; the result is named by `duration_of_secs`.
#[verifier::external_body]
fn duration_from_secs(secs: u64) -> (r: Duration)
    ensures
        r == duration_of_secs(secs),
{
    Duration::from_secs(secs)
}

/// Calls `tokio::sync::Semaphore::new`, which panics when `permits` exceeds
/// `Semaphore::MAX_PERMITS` (`usize::MAX >> 3`); the bound required here is the
/// one that holds on every target. The semaphore is shared state, so nothing is
/// stated of it.
#[verifier::external_body]
fn new_semaphore(permits: usize) -> Semaphore
    requires
        permits <= 0x1fff_ffff,
{
    Semaphore::new(permits)
}

/// Draws a `u64` from the operating system's generator through
/// `rand::rngs::SysRng::try_next_u64`; `None` when the operating system fails
/// to provide one. Nothing is stated of the value drawn.
#[verifier::external_body]
fn random_peer_id() -> Option<u64> {
    rand::rngs::SysRng.try_next_u64().ok()
}

/// How many leading addresses are crawled for the marking outcomes `claims`:
/// all of them, or all but the last if its marking was refused.
pub open spec fn claimed_count(claims: Seq<bool>) -> int {
    if claims.len() > 0 && !claims.last() {
        claims.len() - 1
    } else {
        claims.len() as int
    }
}

/// What the crawl of a list of addresses does next with the set of scanned
/// addresses, which the caller holds.
#[derive(Clone, Copy, Debug, PartialEq, Eq, Structural)]
pub enum CrawlAction {
    /// Mark this address as scanned and record whether it was newly marked.
    Mark(PeerAddr),
    /// This address was already marked: unmark it and stop.
    UnmarkAndStop(PeerAddr),
    /// Every address was newly marked: stop.
    Done,
}

/// Whether the marking outcomes recorded so far follow the crawl: one for
/// each address in turn, every one newly marked but perhaps the last.
pub open spec fn markings_follow(addrs: Seq<PeerAddr>, claims: Seq<bool>) -> bool {
    &&& claims.len() <= addrs.len()
    &&& forall|j: int| 0 <= j < claims.len() - 1 ==> #[trigger] claims[j]
}

/// The next action of the crawl of `addrs` after the markings `claims`: the
/// addresses are marked in order; after a refused marking, that address is
/// unmarked and the crawl stops; after the last address, it stops.
pub open spec fn crawl_action_spec(addrs: Seq<PeerAddr>, claims: Seq<bool>) -> CrawlAction {
    if claims.len() > 0 && !claims.last() {
        CrawlAction::UnmarkAndStop(addrs[claims.len() - 1])
    } else if claims.len() < addrs.len() {
        CrawlAction::Mark(addrs[claims.len() as int])
    } else {
        CrawlAction::Done
    }
}

/// The next action of the crawl of `addrs` after the markings `claims`.
pub fn crawl_action(addrs: &Vec<PeerAddr>, claims: &Vec<bool>) -> (r: CrawlAction)
    requires
        claims@.len() <= addrs@.len(),
    ensures
        r == crawl_action_spec(addrs@, claims@),
{
    let n = claims.len();
    if n > 0 && !claims[n - 1] {
        CrawlAction::UnmarkAndStop(addrs[n - 1])
    } else if n < addrs.len() {
        CrawlAction::Mark(addrs[n])
    } else {
        CrawlAction::Done
    }
}

/// The addresses crawled, given the outcome of marking each of them as
/// scanned (`true`: newly marked): the leading addresses whose marking
/// succeeded, up to the first refused marking or the end of either list.
pub fn claimed_targets(addrs: &Vec<PeerAddr>, claims: &Vec<bool>) -> (targets: Vec<PeerAddr>)
    ensures
        targets@.len() <= addrs@.len(),
        targets@.len() <= claims@.len(),
        targets@ == addrs@.take(targets@.len() as int),
        forall|j: int| 0 <= j < targets@.len() ==> #[trigger] claims@[j],
        targets@.len() < addrs@.len() && targets@.len() < claims@.len() ==> !claims@[targets@.len() as int],
        markings_follow(addrs@, claims@) ==> targets@ == addrs@.take(claimed_count(claims@)),
{
    let mut targets: Vec<PeerAddr> = Vec::new();
    let mut i: usize = 0;
    while i < addrs.len() && i < claims.len() && claims[i]
        invariant
            i <= addrs@.len(),
            i <= claims@.len(),
            targets@ == addrs@.take(i as int),
            forall|j: int| 0 <= j < i ==> #[trigger] claims@[j],
        decreases addrs@.len() - i,
    {
        targets.push(addrs[i]);
        assert(targets@ =~= addrs@.take(i + 1));
        i = i + 1;
    }
    proof {
        if markings_follow(addrs@, claims@) {
            let n = claimed_count(claims@);
            let t = i as int;
            if t < n {
                assert(claims@[t]);
            }
            if t > n {
                assert(claims@[n]);
            }
        }
    }
    targets
}

/// The node data sent in our handshake: we listen on no port, offer no RPC,
/// support fluffy blocks, and name ourselves by `peer_id`.
#[derive(Clone, Copy, Debug, PartialEq, Eq, Structural)]
pub struct HandshakeNodeData {
    pub my_port: u32,
    pub network: Network,
    pub peer_id: u64,
    pub fluffy_blocks: bool,
    pub rpc_port: u16,
    pub rpc_credits_per_hash: u32,
}

/// The chain data sent in our handshake: we claim an empty chain.
#[derive(Clone, Copy, Debug)]
pub struct HandshakeSyncData {
    pub cumulative_difficulty: u128,
    pub current_height: u64,
    pub pruning_seed: u32,
    pub top_id: [u8; 32],
    pub top_version: u8,
}

pub open spec fn handshake_node_data_spec(network: Network, peer_id: u64) -> HandshakeNodeData {
    HandshakeNodeData {
        my_port: 0,
        network,
        peer_id,
        fluffy_blocks: true,
        rpc_port: 0,
        rpc_credits_per_hash: 0,
    }
}

/// The node data of our handshake on `network` under the id `peer_id`.
pub fn handshake_node_data(network: Network, peer_id: u64) -> (r: HandshakeNodeData)
    ensures
        r == handshake_node_data_spec(network, peer_id),
{
    HandshakeNodeData {
        my_port: 0,
        network,
        peer_id,
        fluffy_blocks: true,
        rpc_port: 0,
        rpc_credits_per_hash: 0,
    }
}

/// The chain data of our handshake: every field zero.
pub fn handshake_sync_data() -> (r: HandshakeSyncData)
    ensures
        r.cumulative_difficulty == 0,
        r.current_height == 0,
        r.pruning_seed == 0,
        forall|i: int| 0 <= i < 32 ==> r.top_id@[i] == 0,
        r.top_version == 0,
{
    HandshakeSyncData {
        cumulative_difficulty: 0,
        current_height: 0,
        pruning_seed: 0,
        top_id: [0u8; 32],
        top_version: 0,
    }
}

/// A crawl of the Monero network, built by `CrawlBuilder`.
pub struct Crawl {
    seeds: Vec<PeerAddr>,
    timeout_duration: Duration,
    connections_limit: Arc<Semaphore>,
    chainnet: Network,
    capabilities: Vec<CapabilitiesChecker>,
}

impl Crawl {
    pub closed spec fn seeds_spec(self) -> Seq<PeerAddr> {
        self.seeds@
    }

    pub closed spec fn timeout_spec(self) -> Duration {
        self.timeout_duration
    }

    pub closed spec fn chainnet_spec(self) -> Network {
        self.chainnet
    }

    pub closed spec fn capabilities_spec(self) -> Seq<CapabilitiesChecker> {
        self.capabilities@
    }

    pub closed spec fn connections_limit_spec(self) -> Arc<Semaphore> {
        self.connections_limit
    }

    /// The addresses the crawl starts from.
    pub fn seeds(&self) -> (r: &Vec<PeerAddr>)
        ensures
            r@ == self.seeds_spec(),
    {
        &self.seeds
    }

    /// How long a connection or a probe may take.
    pub fn timeout_duration(&self) -> (r: Duration)
        ensures
            r == self.timeout_spec(),
    {
        self.timeout_duration
    }

    /// The semaphore that bounds the number of peers handshaken at once.
    pub fn connections_limit(&self) -> (r: &Arc<Semaphore>)
        ensures
            *r == self.connections_limit_spec(),
    {
        &self.connections_limit
    }

    /// The network crawled.
    pub fn chainnet(&self) -> (r: Network)
        ensures
            r == self.chainnet_spec(),
    {
        self.chainnet
    }

    /// The capabilities a peer must have to be reported.
    pub fn capabilities(&self) -> (r: &Vec<CapabilitiesChecker>)
        ensures
            r@ == self.capabilities_spec(),
    {
        &self.capabilities
    }

    /// The node data of a new handshake: the crawl's network, and a fresh random peer id;
    /// `None` when the operating system provides no random number.
    pub fn new_handshake_node_data(&self) -> (r: Option<HandshakeNodeData>)
        ensures
            r matches Some(d) ==> d == handshake_node_data_spec(self.chainnet_spec(), d.peer_id),
    {
        match random_peer_id() {
            Some(peer_id) => Some(handshake_node_data(self.chainnet, peer_id)),
            None => None,
        }
    }
}

/// An error of `CrawlBuilder::build`.
#[derive(Debug)]
pub enum CrawlBuilderError {
    /// A field without a default was not set.
    UninitializedField(&'static str),
    /// The values set were refused.
    ValidationError(String),
}

/// The number of peers handshaken at once when no limit is set.
pub const DEFAULT_CONNECTIONS_LIMIT: usize = 100;

/// The timeout, in seconds, when none is set.
pub const DEFAULT_TIMEOUT_SECS: u64 = 5;

/// A builder of `Crawl`. Every field has a default: the seed nodes, a timeout
/// of five seconds, at most a hundred handshakes at once, the main network, and
/// no capabilities.
pub struct CrawlBuilder {
    seeds: Option<Vec<PeerAddr>>,
    timeout_duration: Option<Duration>,
    connections_limit: Option<Arc<Semaphore>>,
    chainnet: Option<Network>,
    capabilities: Option<Vec<CapabilitiesChecker>>,
}

impl Default for CrawlBuilder {
    fn default() -> (r: CrawlBuilder)
        ensures
            r.seeds_set() is None,
            r.timeout_set() is None,
            r.connections_limit_set() is None,
            r.chainnet_set() is None,
            r.capabilities_set() is None,
    {
        CrawlBuilder {
            seeds: None,
            timeout_duration: None,
            connections_limit: None,
            chainnet: None,
            capabilities: None,
        }
    }
}

impl CrawlBuilder {
    pub closed spec fn seeds_set(self) -> Option<Seq<PeerAddr>> {
        match self.seeds {
            Some(v) => Some(v@),
            None => None,
        }
    }

    pub closed spec fn timeout_set(self) -> Option<Duration> {
        self.timeout_duration
    }

    pub closed spec fn connections_limit_set(self) -> Option<Arc<Semaphore>> {
        self.connections_limit
    }

    pub closed spec fn chainnet_set(self) -> Option<Network> {
        self.chainnet
    }

    pub closed spec fn capabilities_set(self) -> Option<Seq<CapabilitiesChecker>> {
        match self.capabilities {
            Some(v) => Some(v@),
            None => None,
        }
    }

    /// The default seeds: the seed nodes of the Monero network.
    fn default_seeds(&self) -> (r: Vec<PeerAddr>)
        ensures
            r@ == seed_nodes_spec(),
    {
        seed_nodes()
    }

    /// Sets the addresses the crawl starts from.
    pub fn seeds(self, value: Vec<PeerAddr>) -> (r: CrawlBuilder)
        ensures
            r.seeds_set() == Some(value@),
            r.timeout_set() == self.timeout_set(),
            r.connections_limit_set() == self.connections_limit_set(),
            r.chainnet_set() == self.chainnet_set(),
            r.capabilities_set() == self.capabilities_set(),
    {
        CrawlBuilder { seeds: Some(value), ..self }
    }

    /// Sets how long a connection or a probe may take.
    pub fn timeout_duration(self, value: Duration) -> (r: CrawlBuilder)
        ensures
            r.seeds_set() == self.seeds_set(),
            r.timeout_set() == Some(value),
            r.connections_limit_set() == self.connections_limit_set(),
            r.chainnet_set() == self.chainnet_set(),
            r.capabilities_set() == self.capabilities_set(),
    {
        CrawlBuilder { timeout_duration: Some(value), ..self }
    }

    /// Sets the semaphore that bounds the number of peers handshaken at once.
    pub fn connections_limit(self, value: Arc<Semaphore>) -> (r: CrawlBuilder)
        ensures
            r.seeds_set() == self.seeds_set(),
            r.timeout_set() == self.timeout_set(),
            r.connections_limit_set() == Some(value),
            r.chainnet_set() == self.chainnet_set(),
            r.capabilities_set() == self.capabilities_set(),
    {
        CrawlBuilder { connections_limit: Some(value), ..self }
    }

    /// Sets the network crawled.
    pub fn chainnet(self, value: Network) -> (r: CrawlBuilder)
        ensures
            r.seeds_set() == self.seeds_set(),
            r.timeout_set() == self.timeout_set(),
            r.connections_limit_set() == self.connections_limit_set(),
            r.chainnet_set() == Some(value),
            r.capabilities_set() == self.capabilities_set(),
    {
        CrawlBuilder { chainnet: Some(value), ..self }
    }

    /// Sets the capabilities a peer must have to be reported.
    pub fn capabilities(self, value: Vec<CapabilitiesChecker>) -> (r: CrawlBuilder)
        ensures
            r.seeds_set() == self.seeds_set(),
            r.timeout_set() == self.timeout_set(),
            r.connections_limit_set() == self.connections_limit_set(),
            r.chainnet_set() == self.chainnet_set(),
            r.capabilities_set() == Some(value@),
    {
        CrawlBuilder { capabilities: Some(value), ..self }
    }

    /// Builds the crawl; a field not set takes its default. It always succeeds.
    pub fn build(self) -> (r: Result<Crawl, CrawlBuilderError>)
        ensures
            r is Ok,
            r matches Ok(c) ==> {
                &&& c.seeds_spec() == (match self.seeds_set() {
                    Some(s) => s,
                    None => seed_nodes_spec(),
                })
                &&& c.timeout_spec() == (match self.timeout_set() {
                    Some(d) => d,
                    None => duration_of_secs(DEFAULT_TIMEOUT_SECS),
                })
                &&& self.connections_limit_set() matches Some(l) ==> c.connections_limit_spec() == l
                &&& c.chainnet_spec() == (match self.chainnet_set() {
                    Some(n) => n,
                    None => Network::Mainnet,
                })
                &&& c.capabilities_spec() == (match self.capabilities_set() {
                    Some(caps) => caps,
                    None => Seq::<CapabilitiesChecker>::empty(),
                })
            },
    {
        let seeds = match self.seeds {
            Some(s) => s,
            None => self.default_seeds(),
        };
        let timeout_duration = match self.timeout_duration {
            Some(d) => d,
            None => duration_from_secs(DEFAULT_TIMEOUT_SECS),
        };
        let connections_limit = match self.connections_limit {
            Some(l) => l,
            None => Arc::new(new_semaphore(DEFAULT_CONNECTIONS_LIMIT)),
        };
        let chainnet = match self.chainnet {
            Some(n) => n,
            None => Network::default(),
        };
        let capabilities = match self.capabilities {
            Some(c) => c,
            None => Vec::new(),
        };
        Ok(Crawl { seeds, timeout_duration, connections_limit, chainnet, capabilities })
    }
}

} // verus!
