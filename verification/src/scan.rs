use vstd::prelude::*;
use std::sync::Arc;
use std::sync::Mutex;
use crate::peer::PeerAddr;
use crate::seeds::{seed_nodes_spec, is_seed_node};
use crate::capability_checkers::{
    CapabilitiesChecker, latency_spec, synced_spec, spynode_spec, spy_filter_passes,
    is_latency_capable, is_blockchain_synced, is_spynode, PingIds,
};

verus! {

/// What the crawl learnt of a peer from its handshake.
#[derive(Clone, Copy, Debug, PartialEq, Eq, Structural)]
pub struct PeerInfo {
    /// The socket address the peer was reached on.
    pub addr: PeerAddr,
    /// The RPC port the peer advertises, `0` for none.
    pub rpc_port: u16,
    /// The height of the peer's chain.
    pub current_height: u64,
    /// The peer id given in the handshake.
    pub peer_id: u64,
}

/// The values reported for a kept peer: the RPC port, the ZMQ port and the
/// latency in milliseconds. A value whose capability was not asked for is `0`.
#[derive(Clone, Copy, Debug, PartialEq, Eq, Structural)]
pub struct ScanTotals {
    pub rpc_port: u16,
    pub zmq_port: u16,
    pub latency: u32,
}

pub open spec fn zero_totals() -> ScanTotals {
    ScanTotals { rpc_port: 0, zmq_port: 0, latency: 0 }
}

/// What was measured of a peer for one capability.
#[derive(Clone, Copy, Debug, PartialEq, Eq, Structural)]
pub enum Outcome {
    /// Nothing is measured: the capability is decided from what is already known.
    Decided,
    /// Milliseconds until the TCP connection completed; `None` on timeout.
    Elapsed(Option<u128>),
    /// The port on which the service answered; `None` if none did.
    Port(Option<u16>),
    /// The required height read from the shared value; `None` if it could not be read.
    RequiredHeight(Option<u64>),
    /// The peer ids answered to three pings; `None` if a ping failed.
    Pings(Option<PingIds>),
}

/// The network work that the caller performs for a peer.
#[derive(Debug)]
pub enum Probe {
    /// Time a TCP connection to the peer; report `Outcome::Elapsed`.
    Latency(u32),
    /// Search for the RPC service, starting with the advertised port (`0`: none),
    /// then the open ports among `ports`; report `Outcome::Port`.
    Rpc { advertised: u16, ports: Vec<u16> },
    /// Search for a ZMQ publisher among the open ports of `ports`; report `Outcome::Port`.
    Zmq(Vec<u16>),
    /// Read the required height from this shared value (`None` if its mutex is
    /// poisoned); report `Outcome::RequiredHeight`.
    RequiredHeight(Arc<Mutex<u64>>),
    /// Connect to the peer and ping it three times; report `Outcome::Pings`.
    SpyPings,
}

/// The next thing to do for a peer.
#[derive(Debug)]
pub enum ScanStep {
    /// Perform this probe and record its outcome.
    Probe(Probe),
    /// The peer has every capability; these are its reported values.
    Accept(ScanTotals),
    /// The peer lacks a capability.
    Reject,
}

/// Whether deciding this capability needs network work from the caller.
pub open spec fn needs_probe(cap: CapabilitiesChecker) -> bool {
    match cap {
        CapabilitiesChecker::Latency(_) => true,
        CapabilitiesChecker::Rpc(_) => true,
        CapabilitiesChecker::Zmq(_) => true,
        CapabilitiesChecker::ChainSynced(_) => true,
        CapabilitiesChecker::SpyNode(_, blacklist) => blacklist@.len() == 0,
        CapabilitiesChecker::SeedNode(_) => false,
    }
}

/// The kind of outcome that decides a capability.
pub open spec fn outcome_fits(cap: CapabilitiesChecker, o: Outcome) -> bool {
    match cap {
        CapabilitiesChecker::Latency(_) => o is Elapsed,
        CapabilitiesChecker::Rpc(_) => o is Port,
        CapabilitiesChecker::Zmq(_) => o is Port,
        CapabilitiesChecker::ChainSynced(_) => o is RequiredHeight,
        CapabilitiesChecker::SpyNode(_, blacklist) => if blacklist@.len() == 0 {
            o is Pings
        } else {
            o is Decided
        },
        CapabilitiesChecker::SeedNode(_) => o is Decided,
    }
}

/// The probe that decides a capability that needs one.
pub open spec fn probe_matches(p: Probe, cap: CapabilitiesChecker, peer: PeerInfo) -> bool {
    match cap {
        CapabilitiesChecker::Latency(max) => p == Probe::Latency(max),
        CapabilitiesChecker::Rpc(ports) => match p {
            Probe::Rpc { advertised, ports: probe_ports } => advertised == peer.rpc_port && probe_ports@ == ports@,
            _ => false,
        },
        CapabilitiesChecker::Zmq(ports) => match p {
            Probe::Zmq(probe_ports) => probe_ports@ == ports@,
            _ => false,
        },
        CapabilitiesChecker::ChainSynced(height) => p == Probe::RequiredHeight(height),
        CapabilitiesChecker::SpyNode(_, _) => p is SpyPings,
        _ => false,
    }
}

/// One capability applied to the values gathered so far: the new values if the
/// peer has the capability by the outcome `o`, `None` if it does not.
pub open spec fn step_spec(t: ScanTotals, cap: CapabilitiesChecker, peer: PeerInfo, o: Outcome) -> Option<ScanTotals> {
    match cap {
        CapabilitiesChecker::Latency(max) => match o {
            Outcome::Elapsed(e) => match latency_spec(e, max) {
                Some(ms) => Some(ScanTotals { latency: ms, ..t }),
                None => None,
            },
            _ => None,
        },
        CapabilitiesChecker::Rpc(_) => match o {
            Outcome::Port(Some(p)) => Some(ScanTotals { rpc_port: p, ..t }),
            _ => None,
        },
        CapabilitiesChecker::Zmq(_) => match o {
            Outcome::Port(Some(p)) => Some(ScanTotals { zmq_port: p, ..t }),
            _ => None,
        },
        CapabilitiesChecker::ChainSynced(_) => match o {
            Outcome::RequiredHeight(h) => if synced_spec(peer.current_height, h) { Some(t) } else { None },
            _ => None,
        },
        CapabilitiesChecker::SpyNode(keep_only, blacklist) => {
            let pings = match o {
                Outcome::Pings(p) => p,
                _ => None,
            };
            if spy_filter_passes(keep_only, spynode_spec(peer.addr, peer.peer_id, blacklist@, pings)) {
                Some(t)
            } else {
                None
            }
        },
        CapabilitiesChecker::SeedNode(keep) => if seed_nodes_spec().contains(peer.addr) == keep {
            Some(t)
        } else {
            None
        },
    }
}

/// The capabilities `caps`, in order, applied to a peer with the outcomes
/// `outcomes` (one for each capability): the reported values if the peer has
/// every capability, `None` otherwise.
pub open spec fn scan_spec(caps: Seq<CapabilitiesChecker>, peer: PeerInfo, outcomes: Seq<Outcome>) -> Option<ScanTotals>
    decreases caps.len(),
{
    if caps.len() == 0 {
        Some(zero_totals())
    } else {
        match scan_spec(caps.drop_last(), peer, outcomes.drop_last()) {
            Some(t) => step_spec(t, caps.last(), peer, outcomes.last()),
            None => None,
        }
    }
}

/// One capability applied to the values gathered so far.
pub fn apply_capability(t: ScanTotals, cap: &CapabilitiesChecker, peer: &PeerInfo, o: &Outcome) -> (r: Option<ScanTotals>)
    ensures
        r == step_spec(t, *cap, *peer, *o),
{
    match cap {
        CapabilitiesChecker::Latency(max) => match o {
            Outcome::Elapsed(e) => match is_latency_capable(*e, *max) {
                Some(ms) => Some(ScanTotals { latency: ms, ..t }),
                None => None,
            },
            _ => None,
        },
        CapabilitiesChecker::Rpc(_) => match o {
            Outcome::Port(Some(p)) => Some(ScanTotals { rpc_port: *p, ..t }),
            _ => None,
        },
        CapabilitiesChecker::Zmq(_) => match o {
            Outcome::Port(Some(p)) => Some(ScanTotals { zmq_port: *p, ..t }),
            _ => None,
        },
        CapabilitiesChecker::ChainSynced(_) => match o {
            Outcome::RequiredHeight(h) => if is_blockchain_synced(peer.current_height, *h) { Some(t) } else { None },
            _ => None,
        },
        CapabilitiesChecker::SpyNode(keep_only, blacklist) => {
            let pings = match o {
                Outcome::Pings(p) => *p,
                _ => None,
            };
            let verdict = is_spynode(&peer.addr, peer.peer_id, blacklist, pings);
            let passes = if *keep_only {
                verdict == Some(true)
            } else {
                verdict != Some(true)
            };
            if passes { Some(t) } else { None }
        },
        CapabilitiesChecker::SeedNode(keep) => if is_seed_node(&peer.addr) == *keep {
            Some(t)
        } else {
            None
        },
    }
}

} // verus!

verus! {

/// The evaluation of one peer against a list of capabilities, in order.
///
/// `step` decides every capability that needs no network work and stops at the
/// next one that does, handing its probe to the caller; the caller performs it
/// and hands the outcome to `record`. The evaluation stops at the first
/// capability that the peer lacks.
pub struct CapabilityScan {
    caps: Vec<CapabilitiesChecker>,
    peer: PeerInfo,
    progress: ScanProgress,
}

/// How far an evaluation got: the number of capabilities decided, the values
/// gathered, whether the peer was rejected, and the outcomes recorded.
struct ScanProgress {
    next: usize,
    totals: ScanTotals,
    rejected: bool,
    outcomes: Ghost<Seq<Outcome>>,
}

impl CapabilityScan {
    /// The capabilities being checked.
    pub closed spec fn capabilities(self) -> Seq<CapabilitiesChecker> {
        self.caps@
    }

    /// The peer being checked.
    pub closed spec fn peer_info(self) -> PeerInfo {
        self.peer
    }

    /// The outcomes recorded so far, one for each capability already decided.
    pub closed spec fn recorded(self) -> Seq<Outcome> {
        self.progress.outcomes@
    }

    /// Whether the peer was found to lack a capability.
    pub closed spec fn is_rejected(self) -> bool {
        self.progress.rejected
    }

    /// The values gathered so far.
    pub closed spec fn gathered(self) -> ScanTotals {
        self.progress.totals
    }

    /// The evaluation is consistent: the outcomes recorded fit their
    /// capabilities, and the state is what `scan_spec` gives for them.
    #[verifier::type_invariant]
    closed spec fn wf(self) -> bool {
        &&& self.progress.next <= self.caps@.len()
        &&& self.progress.outcomes@.len() == self.progress.next
        &&& forall|i: int| 0 <= i < self.progress.next ==> outcome_fits(#[trigger] self.caps@[i], self.progress.outcomes@[i])
        &&& if self.progress.rejected {
            scan_spec(self.caps@.take(self.progress.next as int), self.peer, self.progress.outcomes@) is None
        } else {
            scan_spec(self.caps@.take(self.progress.next as int), self.peer, self.progress.outcomes@) == Some(self.progress.totals)
        }
    }

    /// Starts the evaluation of `peer` against `caps`.
    pub fn new(peer: PeerInfo, caps: Vec<CapabilitiesChecker>) -> (r: CapabilityScan)
        ensures
            r.capabilities() == caps@,
            r.peer_info() == peer,
            r.recorded() == Seq::<Outcome>::empty(),
            !r.is_rejected(),
            r.gathered() == zero_totals(),
    {
        assert(caps@.take(0) =~= Seq::<CapabilitiesChecker>::empty());
        CapabilityScan {
            caps,
            peer,
            progress: ScanProgress {
                next: 0,
                totals: ScanTotals { rpc_port: 0, zmq_port: 0, latency: 0 },
                rejected: false,
                outcomes: Ghost(Seq::empty()),
            },
        }
    }

    /// Whether the evaluation waits for the outcome of a probe.
    pub closed spec fn awaits_probe(self) -> bool {
        &&& !self.progress.rejected
        &&& self.progress.next < self.caps@.len()
        &&& needs_probe(self.caps@[self.progress.next as int])
    }

    /// The capability whose outcome is expected next.
    pub closed spec fn pending(self) -> CapabilitiesChecker {
        self.caps@[self.progress.next as int]
    }

    proof fn lemma_scan_push(caps: Seq<CapabilitiesChecker>, peer: PeerInfo, outcomes: Seq<Outcome>, o: Outcome, n: int)
        requires
            0 <= n < caps.len(),
            outcomes.len() == n,
        ensures
            scan_spec(caps.take(n + 1), peer, outcomes.push(o)) == (match scan_spec(caps.take(n), peer, outcomes) {
                Some(t) => step_spec(t, caps[n], peer, o),
                None => None,
            }),
    {
        assert(caps.take(n + 1).drop_last() =~= caps.take(n));
        assert(outcomes.push(o).drop_last() =~= outcomes);
    }

    fn apply(&mut self, o: Outcome)
        requires
            !old(self).progress.rejected,
            old(self).progress.next < old(self).caps@.len(),
            outcome_fits(old(self).caps@[old(self).progress.next as int], o),
        ensures
            final(self).caps == old(self).caps,
            final(self).peer == old(self).peer,
            final(self).progress.next == old(self).progress.next + 1,
            final(self).progress.outcomes@ == old(self).progress.outcomes@.push(o),
            step_spec(old(self).progress.totals, old(self).caps@[old(self).progress.next as int], old(self).peer, o) matches Some(t)
                ==> !final(self).progress.rejected && final(self).progress.totals == t,
            step_spec(old(self).progress.totals, old(self).caps@[old(self).progress.next as int], old(self).peer, o) is None
                ==> final(self).progress.rejected,
    {
        proof {
            use_type_invariant(&*self);
            Self::lemma_scan_push(self.caps@, self.peer, self.progress.outcomes@, o, self.progress.next as int);
        }
        let next = self.progress.next;
        let n = self.caps.len();
        assert(next < n);
        let r = apply_capability(self.progress.totals, &self.caps[next], &self.peer, &o);
        let outcomes = Ghost(self.progress.outcomes@.push(o));
        let progress = match r {
            Some(t) => ScanProgress { next: next + 1, totals: t, rejected: false, outcomes },
            None => ScanProgress { next: next + 1, totals: self.progress.totals, rejected: true, outcomes },
        };
        self.progress = progress;
    }

    /// Decides the capabilities that need no network work, up to the next one that does.
    pub fn step(&mut self) -> (r: ScanStep)
        ensures
            final(self).capabilities() == old(self).capabilities(),
            final(self).peer_info() == old(self).peer_info(),
            // the outcomes recorded before are kept; the new ones are for capabilities that need no probe
            old(self).recorded().len() <= final(self).recorded().len(),
            final(self).recorded().take(old(self).recorded().len() as int) == old(self).recorded(),
            forall|i: int| old(self).recorded().len() <= i < final(self).recorded().len()
                ==> !needs_probe(#[trigger] final(self).capabilities()[i]),
            // and those outcomes are exactly `Decided`
            forall|i: int| old(self).recorded().len() <= i < final(self).recorded().len()
                ==> #[trigger] final(self).recorded()[i] == Outcome::Decided,
            old(self).is_rejected() ==> *final(self) == *old(self),
            match r {
                ScanStep::Probe(p) => {
                    &&& final(self).awaits_probe()
                    &&& probe_matches(p, final(self).pending(), final(self).peer_info())
                },
                ScanStep::Accept(t) => {
                    &&& !final(self).is_rejected()
                    &&& final(self).recorded().len() == final(self).capabilities().len()
                    &&& scan_spec(final(self).capabilities(), final(self).peer_info(), final(self).recorded()) == Some(t)
                },
                ScanStep::Reject => {
                    &&& final(self).is_rejected()
                    &&& scan_spec(final(self).capabilities().take(final(self).recorded().len() as int),
                            final(self).peer_info(), final(self).recorded()) is None
                },
            },
    {
        proof {
            use_type_invariant(&*self);
        }
        let ghost start = self.progress.outcomes@;
        let ghost start_caps = self.caps@;
        let ghost start_peer = self.peer;
        let ghost start_rejected = self.progress.rejected;
        loop
            invariant
                self.caps@ == start_caps,
                self.peer == start_peer,
                start == old(self).progress.outcomes@,
                start_caps == old(self).caps@,
                start_peer == old(self).peer,
                start_rejected == old(self).progress.rejected,
                start.len() <= self.progress.outcomes@.len(),
                self.progress.outcomes@.take(start.len() as int) == start,
                forall|i: int| start.len() <= i < self.progress.outcomes@.len() ==> !needs_probe(#[trigger] self.caps@[i]),
                forall|i: int| start.len() <= i < self.progress.outcomes@.len()
                    ==> #[trigger] self.progress.outcomes@[i] == Outcome::Decided,
                start_rejected ==> *self == *old(self),
            decreases self.caps@.len() - self.progress.next,
        {
            proof {
                use_type_invariant(&*self);
            }
            if self.progress.rejected {
                return ScanStep::Reject;
            }
            if self.progress.next == self.caps.len() {
                assert(self.caps@.take(self.progress.next as int) =~= self.caps@);
                return ScanStep::Accept(self.progress.totals);
            }
            let o = match &self.caps[self.progress.next] {
                CapabilitiesChecker::Latency(max) => {
                    return ScanStep::Probe(Probe::Latency(*max));
                },
                CapabilitiesChecker::Rpc(ports) => {
                    let ports = ports.clone();
                    assert(ports@ =~= self.caps@[self.progress.next as int]->Rpc_0@);
                    return ScanStep::Probe(Probe::Rpc { advertised: self.peer.rpc_port, ports });
                },
                CapabilitiesChecker::Zmq(ports) => {
                    let ports = ports.clone();
                    assert(ports@ =~= self.caps@[self.progress.next as int]->Zmq_0@);
                    return ScanStep::Probe(Probe::Zmq(ports));
                },
                CapabilitiesChecker::ChainSynced(height) => {
                    return ScanStep::Probe(Probe::RequiredHeight(height.clone()));
                },
                CapabilitiesChecker::SpyNode(_, blacklist) => {
                    if blacklist.len() == 0 {
                        return ScanStep::Probe(Probe::SpyPings);
                    }
                    Outcome::Decided
                },
                CapabilitiesChecker::SeedNode(_) => Outcome::Decided,
            };
            let ghost before = self.progress.outcomes@;
            self.apply(o);
            assert(self.progress.outcomes@.take(start.len() as int) =~= before.take(start.len() as int));
        }
    }

    /// Records the outcome of the probe that `step` returned.
    pub fn record(&mut self, o: Outcome)
        requires
            old(self).awaits_probe(),
            outcome_fits(old(self).pending(), o),
        ensures
            final(self).capabilities() == old(self).capabilities(),
            final(self).peer_info() == old(self).peer_info(),
            final(self).recorded() == old(self).recorded().push(o),
            final(self).is_rejected() <==> step_spec(old(self).gathered(), old(self).pending(), old(self).peer_info(), o) is None,
            !final(self).is_rejected() ==> Some(final(self).gathered()) == step_spec(old(self).gathered(), old(self).pending(), old(self).peer_info(), o),
    {
        self.apply(o);
    }
}

} // verus!
