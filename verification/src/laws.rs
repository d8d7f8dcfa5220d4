use vstd::prelude::*;
use std::sync::Arc;
use std::sync::Mutex;
use crate::capability_checkers::{
    CapabilitiesChecker, latency_spec, spy_filter_passes, spynode_spec, spynode_by_pings_spec, PingIds,
};
use crate::rpc::{decimal, digit_char};
use crate::seeds::seed_nodes_spec;
use crate::peer::{PeerAddr, NetworkAddr, clear_addresses_spec};
use crate::crawl::{CrawlAction, crawl_action_spec, markings_follow, claimed_count};
use crate::scan::{Outcome, PeerInfo, ScanTotals, scan_spec, step_spec, zero_totals};

verus! {

/// Whether a capability lets a peer through is independent of the values gathered before it.
proof fn lemma_step_passes_independent(t1: ScanTotals, t2: ScanTotals, cap: CapabilitiesChecker, peer: PeerInfo, o: Outcome)
    ensures
        step_spec(t1, cap, peer, o) is Some <==> step_spec(t2, cap, peer, o) is Some,
{
}

/// A peer is kept exactly when every capability, taken on its own, lets it through.
pub proof fn lemma_kept_iff_every_capability_holds(caps: Seq<CapabilitiesChecker>, peer: PeerInfo, outcomes: Seq<Outcome>)
    requires
        outcomes.len() == caps.len(),
    ensures
        scan_spec(caps, peer, outcomes) is Some
            <==> forall|i: int| 0 <= i < caps.len() ==> (#[trigger] step_spec(zero_totals(), caps[i], peer, outcomes[i])) is Some,
    decreases caps.len(),
{
    if caps.len() > 0 {
        let n = caps.len() - 1;
        let c0 = caps.drop_last();
        let o0 = outcomes.drop_last();
        lemma_kept_iff_every_capability_holds(c0, peer, o0);
        match scan_spec(c0, peer, o0) {
            Some(t) => {
                lemma_step_passes_independent(t, zero_totals(), caps[n], peer, outcomes[n]);
            },
            None => {},
        }
        if forall|i: int| 0 <= i < caps.len() ==> (#[trigger] step_spec(zero_totals(), caps[i], peer, outcomes[i])) is Some {
            assert forall|i: int| 0 <= i < c0.len() implies (#[trigger] step_spec(zero_totals(), c0[i], peer, o0[i])) is Some by {
                assert(c0[i] == caps[i] && o0[i] == outcomes[i]);
                assert(step_spec(zero_totals(), caps[i], peer, outcomes[i]) is Some);
            }
        }
        if scan_spec(caps, peer, outcomes) is Some {
            assert forall|i: int| 0 <= i < caps.len() implies (#[trigger] step_spec(zero_totals(), caps[i], peer, outcomes[i])) is Some by {
                if i < n {
                    assert(c0[i] == caps[i] && o0[i] == outcomes[i]);
                    assert(step_spec(zero_totals(), c0[i], peer, o0[i]) is Some);
                }
            }
        }
    }
}

/// Once the capabilities checked so far reject a peer, the whole evaluation rejects it,
/// whatever the later outcomes.
pub proof fn lemma_rejection_is_final(caps: Seq<CapabilitiesChecker>, peer: PeerInfo, outcomes: Seq<Outcome>, k: int)
    requires
        outcomes.len() == caps.len(),
        0 <= k <= caps.len(),
        scan_spec(caps.take(k), peer, outcomes.take(k)) is None,
    ensures
        scan_spec(caps, peer, outcomes) is None,
    decreases caps.len() - k,
{
    if k < caps.len() {
        assert(caps.take(k + 1).drop_last() =~= caps.take(k));
        assert(outcomes.take(k + 1).drop_last() =~= outcomes.take(k));
        lemma_rejection_is_final(caps, peer, outcomes, k + 1);
    } else {
        assert(caps.take(k) =~= caps);
        assert(outcomes.take(k) =~= outcomes);
    }
}

/// The RPC port reported for a kept peer: `0` if no RPC capability was asked for;
/// otherwise the port found by the last RPC capability.
pub proof fn lemma_reported_rpc_port(caps: Seq<CapabilitiesChecker>, peer: PeerInfo, outcomes: Seq<Outcome>)
    requires
        outcomes.len() == caps.len(),
        scan_spec(caps, peer, outcomes) is Some,
    ensures
        ({
            let t = scan_spec(caps, peer, outcomes)->0;
            ||| (forall|i: int| 0 <= i < caps.len() ==> !(#[trigger] caps[i] is Rpc)) && t.rpc_port == 0
            ||| exists|i: int| #![trigger caps[i]] 0 <= i < caps.len() && caps[i] is Rpc
                    && outcomes[i] == Outcome::Port(Some(t.rpc_port))
                    && forall|j: int| i < j < caps.len() ==> !(#[trigger] caps[j] is Rpc)
        }),
    decreases caps.len(),
{
    if caps.len() > 0 {
        let n = caps.len() - 1;
        let c0 = caps.drop_last();
        let o0 = outcomes.drop_last();
        lemma_reported_rpc_port(c0, peer, o0);
        let t = scan_spec(caps, peer, outcomes)->0;
        let t0 = scan_spec(c0, peer, o0)->0;
        if caps[n] is Rpc {
            assert(caps[n] is Rpc && outcomes[n] == Outcome::Port(Some(t.rpc_port)));
        } else {
            assert(t.rpc_port == t0.rpc_port);
            if forall|i: int| 0 <= i < c0.len() ==> !(#[trigger] c0[i] is Rpc) {
                assert forall|i: int| 0 <= i < caps.len() implies !(#[trigger] caps[i] is Rpc) by {
                    if i < n { assert(c0[i] == caps[i]); }
                }
            } else {
                let i = choose|i: int| #![trigger c0[i]] 0 <= i < c0.len() && c0[i] is Rpc
                    && o0[i] == Outcome::Port(Some(t0.rpc_port))
                    && forall|j: int| i < j < c0.len() ==> !(#[trigger] c0[j] is Rpc);
                assert(caps[i] == c0[i] && outcomes[i] == o0[i]);
                assert forall|j: int| i < j < caps.len() implies !(#[trigger] caps[j] is Rpc) by {
                    if j < n { assert(c0[j] == caps[j]); }
                }
            }
        }
    }
}

/// The ZMQ port reported for a kept peer: `0` if no ZMQ capability was asked for;
/// otherwise the port found by the last ZMQ capability.
pub proof fn lemma_reported_zmq_port(caps: Seq<CapabilitiesChecker>, peer: PeerInfo, outcomes: Seq<Outcome>)
    requires
        outcomes.len() == caps.len(),
        scan_spec(caps, peer, outcomes) is Some,
    ensures
        ({
            let t = scan_spec(caps, peer, outcomes)->0;
            ||| (forall|i: int| 0 <= i < caps.len() ==> !(#[trigger] caps[i] is Zmq)) && t.zmq_port == 0
            ||| exists|i: int| #![trigger caps[i]] 0 <= i < caps.len() && caps[i] is Zmq
                    && outcomes[i] == Outcome::Port(Some(t.zmq_port))
                    && forall|j: int| i < j < caps.len() ==> !(#[trigger] caps[j] is Zmq)
        }),
    decreases caps.len(),
{
    if caps.len() > 0 {
        let n = caps.len() - 1;
        let c0 = caps.drop_last();
        let o0 = outcomes.drop_last();
        lemma_reported_zmq_port(c0, peer, o0);
        let t = scan_spec(caps, peer, outcomes)->0;
        let t0 = scan_spec(c0, peer, o0)->0;
        if caps[n] is Zmq {
            assert(caps[n] is Zmq && outcomes[n] == Outcome::Port(Some(t.zmq_port)));
        } else {
            assert(t.zmq_port == t0.zmq_port);
            if forall|i: int| 0 <= i < c0.len() ==> !(#[trigger] c0[i] is Zmq) {
                assert forall|i: int| 0 <= i < caps.len() implies !(#[trigger] caps[i] is Zmq) by {
                    if i < n { assert(c0[i] == caps[i]); }
                }
            } else {
                let i = choose|i: int| #![trigger c0[i]] 0 <= i < c0.len() && c0[i] is Zmq
                    && o0[i] == Outcome::Port(Some(t0.zmq_port))
                    && forall|j: int| i < j < c0.len() ==> !(#[trigger] c0[j] is Zmq);
                assert(caps[i] == c0[i] && outcomes[i] == o0[i]);
                assert forall|j: int| i < j < caps.len() implies !(#[trigger] caps[j] is Zmq) by {
                    if j < n { assert(c0[j] == caps[j]); }
                }
            }
        }
    }
}

/// The latency reported for a kept peer: `0` if no latency capability was asked for;
/// otherwise the latency measured by the last latency capability, which is within its bound.
pub proof fn lemma_reported_latency(caps: Seq<CapabilitiesChecker>, peer: PeerInfo, outcomes: Seq<Outcome>)
    requires
        outcomes.len() == caps.len(),
        scan_spec(caps, peer, outcomes) is Some,
    ensures
        ({
            let t = scan_spec(caps, peer, outcomes)->0;
            ||| (forall|i: int| 0 <= i < caps.len() ==> !(#[trigger] caps[i] is Latency)) && t.latency == 0
            ||| exists|i: int| #![trigger caps[i]] 0 <= i < caps.len() && caps[i] is Latency
                    && outcomes[i] is Elapsed
                    && latency_spec(outcomes[i]->Elapsed_0, caps[i]->Latency_0) == Some(t.latency)
                    && t.latency <= caps[i]->Latency_0
                    && forall|j: int| i < j < caps.len() ==> !(#[trigger] caps[j] is Latency)
        }),
    decreases caps.len(),
{
    if caps.len() > 0 {
        let n = caps.len() - 1;
        let c0 = caps.drop_last();
        let o0 = outcomes.drop_last();
        lemma_reported_latency(c0, peer, o0);
        let t = scan_spec(caps, peer, outcomes)->0;
        let t0 = scan_spec(c0, peer, o0)->0;
        if caps[n] is Latency {
            assert(caps[n] is Latency && outcomes[n] is Elapsed);
        } else {
            assert(t.latency == t0.latency);
            if forall|i: int| 0 <= i < c0.len() ==> !(#[trigger] c0[i] is Latency) {
                assert forall|i: int| 0 <= i < caps.len() implies !(#[trigger] caps[i] is Latency) by {
                    if i < n { assert(c0[i] == caps[i]); }
                }
            } else {
                let i = choose|i: int| #![trigger c0[i]] 0 <= i < c0.len() && c0[i] is Latency
                    && o0[i] is Elapsed
                    && latency_spec(o0[i]->Elapsed_0, c0[i]->Latency_0) == Some(t0.latency)
                    && t0.latency <= c0[i]->Latency_0
                    && forall|j: int| i < j < c0.len() ==> !(#[trigger] c0[j] is Latency);
                assert(caps[i] == c0[i] && outcomes[i] == o0[i]);
                assert forall|j: int| i < j < caps.len() implies !(#[trigger] caps[j] is Latency) by {
                    if j < n { assert(c0[j] == caps[j]); }
                }
            }
        }
    }
}

/// A kept peer is a seed node exactly when a seed-node capability asks for seed nodes.
pub proof fn lemma_seed_node_filter(caps: Seq<CapabilitiesChecker>, peer: PeerInfo, outcomes: Seq<Outcome>, i: int)
    requires
        outcomes.len() == caps.len(),
        0 <= i < caps.len(),
        caps[i] is SeedNode,
        scan_spec(caps, peer, outcomes) is Some,
    ensures
        seed_nodes_spec().contains(peer.addr) == caps[i]->SeedNode_0,
{
    lemma_kept_iff_every_capability_holds(caps, peer, outcomes);
    assert(step_spec(zero_totals(), caps[i], peer, outcomes[i]) is Some);
}

/// With a blacklist given, a spy-node capability keeps only blacklisted peers
/// (`true`) or only peers off the blacklist (`false`).
pub proof fn lemma_spy_blacklist_filter(caps: Seq<CapabilitiesChecker>, peer: PeerInfo, outcomes: Seq<Outcome>, i: int)
    requires
        outcomes.len() == caps.len(),
        0 <= i < caps.len(),
        caps[i] is SpyNode,
        caps[i]->SpyNode_1@.len() > 0,
        scan_spec(caps, peer, outcomes) is Some,
    ensures
        caps[i]->SpyNode_1@.contains(peer.addr) == caps[i]->SpyNode_0,
{
    lemma_kept_iff_every_capability_holds(caps, peer, outcomes);
    assert(step_spec(zero_totals(), caps[i], peer, outcomes[i]) is Some);
}

/// A spy-node capability that pings the peer keeps, with `true`, only a peer whose
/// pings showed it to be a spy node; with `false`, no such peer.
pub proof fn lemma_spy_ping_filter(caps: Seq<CapabilitiesChecker>, peer: PeerInfo, outcomes: Seq<Outcome>, i: int)
    requires
        outcomes.len() == caps.len(),
        0 <= i < caps.len(),
        caps[i] is SpyNode,
        caps[i]->SpyNode_1@.len() == 0,
        outcomes[i] is Pings,
        scan_spec(caps, peer, outcomes) is Some,
    ensures
        spy_filter_passes(caps[i]->SpyNode_0, spynode_spec(peer.addr, peer.peer_id, caps[i]->SpyNode_1@, outcomes[i]->Pings_0)),
{
    lemma_kept_iff_every_capability_holds(caps, peer, outcomes);
    assert(step_spec(zero_totals(), caps[i], peer, outcomes[i]) is Some);
}

/// Following the crawl's actions keeps the markings in order: after the
/// outcome of a marking that the crawl asked for, the markings still follow
/// the list, and the address marked is the next one of the list.
pub proof fn lemma_marking_follows_the_list(addrs: Seq<PeerAddr>, claims: Seq<bool>, newly_marked: bool)
    requires
        markings_follow(addrs, claims),
        crawl_action_spec(addrs, claims) is Mark,
    ensures
        crawl_action_spec(addrs, claims) == CrawlAction::Mark(addrs[claims.len() as int]),
        markings_follow(addrs, claims.push(newly_marked)),
{
}

/// When the crawl of a list stops, the addresses crawled are those newly
/// marked: all of the list, or the prefix before the address found already marked.
pub proof fn lemma_crawl_stops_after_claimed_prefix(addrs: Seq<PeerAddr>, claims: Seq<bool>)
    requires
        markings_follow(addrs, claims),
        !(crawl_action_spec(addrs, claims) is Mark),
    ensures
        crawl_action_spec(addrs, claims) is Done ==> claimed_count(claims) == addrs.len()
            && forall|j: int| 0 <= j < claims.len() ==> #[trigger] claims[j],
        crawl_action_spec(addrs, claims) matches CrawlAction::UnmarkAndStop(a) ==>
            claimed_count(claims) == claims.len() - 1 && a == addrs[claimed_count(claims)],
{
}

/// A chain-height capability keeps a peer exactly when a required height was
/// read and the peer's chain is at least that high; it does not change the
/// values gathered.
pub proof fn lemma_chain_synced_rule(t: ScanTotals, height: Arc<Mutex<u64>>, peer: PeerInfo, required: u64)
    ensures
        peer.current_height >= required ==> step_spec(t, CapabilitiesChecker::ChainSynced(height), peer,
            Outcome::RequiredHeight(Some(required))) == Some(t),
        peer.current_height < required ==> step_spec(t, CapabilitiesChecker::ChainSynced(height), peer,
            Outcome::RequiredHeight(Some(required))) is None,
        step_spec(t, CapabilitiesChecker::ChainSynced(height), peer, Outcome::RequiredHeight(None)) is None,
{
}

/// With three pings answered, a peer is a spy node exactly when the peer id of
/// its handshake and the ids of the three pings are not all one id.
pub proof fn lemma_spy_node_by_pings_rule(peer_id: u64, pings: PingIds)
    ensures
        spynode_by_pings_spec(peer_id, Some(pings))
            == Some(!(peer_id == pings.first && pings.first == pings.second && pings.second == pings.third)),
        spynode_by_pings_spec(peer_id, None) is None,
{
}

/// A connection time that fits in `u32` milliseconds is reported as itself when
/// it is within the bound, and refused otherwise; a longer time is reported by
/// its remainder modulo 2^32.
pub proof fn lemma_latency_rule(ms: u128, max: u32)
    ensures
        ms < 0x1_0000_0000 && ms <= max ==> latency_spec(Some(ms), max) == Some(ms as u32) && (ms as u32) as int == ms,
        ms < 0x1_0000_0000 && ms > max ==> latency_spec(Some(ms), max) is None,
        latency_spec(Some(ms), max) matches Some(x) ==> x as int == ms % 0x1_0000_0000 && x <= max,
        latency_spec(None, max) is None,
{
    assert((ms as u32) as int == ms % 0x1_0000_0000) by (bit_vector);
}

/// Appending a clear-net address to a peer list appends it to the addresses
/// kept; appending any other address keeps them as they were; an empty list
/// gives none.
pub proof fn lemma_clear_addresses_push(list: Seq<NetworkAddr>, a: PeerAddr)
    ensures
        clear_addresses_spec(Seq::empty()) == Seq::<PeerAddr>::empty(),
        clear_addresses_spec(list.push(NetworkAddr::Clear(a))) == clear_addresses_spec(list).push(a),
        clear_addresses_spec(list.push(NetworkAddr::Other)) == clear_addresses_spec(list),
{
    assert(list.push(NetworkAddr::Clear(a)).drop_last() =~= list);
    assert(list.push(NetworkAddr::Other).drop_last() =~= list);
}

/// The addresses kept from two lists joined are those kept from each, joined.
pub proof fn lemma_clear_addresses_concat(s: Seq<NetworkAddr>, t: Seq<NetworkAddr>)
    ensures
        clear_addresses_spec(s + t) == clear_addresses_spec(s) + clear_addresses_spec(t),
    decreases t.len(),
{
    if t.len() == 0 {
        assert(s + t =~= s);
        assert(clear_addresses_spec(s) + clear_addresses_spec(t) =~= clear_addresses_spec(s));
    } else {
        let t0 = t.drop_last();
        lemma_clear_addresses_concat(s, t0);
        assert((s + t).drop_last() =~= s + t0);
        assert((s + t).last() == t.last());
        match t.last() {
            NetworkAddr::Clear(a) => {
                assert(clear_addresses_spec(s) + clear_addresses_spec(t0).push(a)
                    =~= (clear_addresses_spec(s) + clear_addresses_spec(t0)).push(a));
            },
            NetworkAddr::Other => {},
        }
    }
}

/// An address is kept exactly when it is a clear-net entry of the list.
pub proof fn lemma_clear_addresses_members(list: Seq<NetworkAddr>, a: PeerAddr)
    ensures
        clear_addresses_spec(list).contains(a) <==> list.contains(NetworkAddr::Clear(a)),
        clear_addresses_spec(list).len() <= list.len(),
    decreases list.len(),
{
    if list.len() > 0 {
        let l0 = list.drop_last();
        lemma_clear_addresses_members(l0, a);
        assert(list =~= l0.push(list.last()));
        if list.contains(NetworkAddr::Clear(a)) {
            let i = choose|i: int| 0 <= i < list.len() && list[i] == NetworkAddr::Clear(a);
            if i < l0.len() {
                assert(l0[i] == NetworkAddr::Clear(a));
            }
        }
        if l0.contains(NetworkAddr::Clear(a)) {
            let i = choose|i: int| 0 <= i < l0.len() && l0[i] == NetworkAddr::Clear(a);
            assert(list[i] == NetworkAddr::Clear(a));
        }
        match list.last() {
            NetworkAddr::Clear(b) => {
                let r0 = clear_addresses_spec(l0);
                assert(clear_addresses_spec(list) == r0.push(b));
                if r0.push(b).contains(a) {
                    let i = choose|i: int| 0 <= i < r0.push(b).len() && r0.push(b)[i] == a;
                    if i < r0.len() {
                        assert(r0[i] == a);
                    }
                }
                if r0.contains(a) {
                    let i = choose|i: int| 0 <= i < r0.len() && r0[i] == a;
                    assert(r0.push(b)[i] == a);
                }
                assert(r0.push(b)[r0.len() as int] == b);
                assert(list[list.len() - 1] == NetworkAddr::Clear(b));
            },
            NetworkAddr::Other => {},
        }
    }
}

/// The numeral of a digit character.
pub open spec fn digit_value(c: char) -> int {
    c as int - '0' as int
}

/// The number that a string of decimal digits stands for.
pub open spec fn decimal_value(s: Seq<char>) -> int
    decreases s.len(),
{
    if s.len() == 0 {
        0
    } else {
        decimal_value(s.drop_last()) * 10 + digit_value(s.last())
    }
}

/// Each decimal digit is written by the character whose code is `'0'` plus the digit.
pub proof fn lemma_digit_char_code(d: nat)
    requires
        d < 10,
    ensures
        digit_char(d) as int == '0' as int + d,
        '0' <= digit_char(d) <= '9',
{
}

/// The decimal text of `n` is made of digits, and read back as a base-10
/// number it gives `n`.
pub proof fn lemma_decimal_reads_back(n: nat)
    ensures
        decimal_value(decimal(n)) == n,
        forall|i: int| 0 <= i < decimal(n).len() ==> '0' <= #[trigger] decimal(n)[i] <= '9',
        decimal(n).len() >= 1,
    decreases n,
{
    if n < 10 {
        lemma_digit_char_code(n);
        assert(decimal(n).drop_last() =~= Seq::<char>::empty());
        assert(decimal_value(decimal(n)) == decimal_value(Seq::<char>::empty()) * 10 + digit_value(digit_char(n)));
    } else {
        lemma_decimal_reads_back(n / 10);
        lemma_digit_char_code(n % 10);
        let s = decimal(n / 10);
        assert(decimal(n) == s.push(digit_char(n % 10)));
        assert(decimal(n).drop_last() =~= s);
        assert(decimal(n).last() == digit_char(n % 10));
        assert(decimal_value(decimal(n)) == decimal_value(s) * 10 + digit_value(digit_char(n % 10)));
        assert(n == (n / 10) * 10 + n % 10);
        assert forall|i: int| 0 <= i < decimal(n).len() implies '0' <= #[trigger] decimal(n)[i] <= '9' by {
            if i < s.len() {
                assert(decimal(n)[i] == s[i]);
            }
        }
    }
}

/// The rules of the other capabilities, each over its outcome: a latency bound
/// keeps a peer whose connection time is within it and reports that time; an
/// RPC or ZMQ capability keeps a peer on which a port answered and reports the
/// port; a seed-node filter keeps a peer exactly when its being a seed node is
/// what was asked; none of them changes the other values gathered.
pub proof fn lemma_capability_rules(t: ScanTotals, peer: PeerInfo, max: u32, ms: u128, port: u16, ports: Vec<u16>, keep: bool)
    ensures
        ms < 0x1_0000_0000 && ms <= max ==> step_spec(t, CapabilitiesChecker::Latency(max), peer, Outcome::Elapsed(Some(ms)))
            == Some(ScanTotals { rpc_port: t.rpc_port, zmq_port: t.zmq_port, latency: ms as u32 }),
        ms < 0x1_0000_0000 && ms > max ==> step_spec(t, CapabilitiesChecker::Latency(max), peer, Outcome::Elapsed(Some(ms))) is None,
        step_spec(t, CapabilitiesChecker::Latency(max), peer, Outcome::Elapsed(None)) is None,
        step_spec(t, CapabilitiesChecker::Rpc(ports), peer, Outcome::Port(Some(port)))
            == Some(ScanTotals { rpc_port: port, zmq_port: t.zmq_port, latency: t.latency }),
        step_spec(t, CapabilitiesChecker::Rpc(ports), peer, Outcome::Port(None)) is None,
        step_spec(t, CapabilitiesChecker::Zmq(ports), peer, Outcome::Port(Some(port)))
            == Some(ScanTotals { rpc_port: t.rpc_port, zmq_port: port, latency: t.latency }),
        step_spec(t, CapabilitiesChecker::Zmq(ports), peer, Outcome::Port(None)) is None,
        (step_spec(t, CapabilitiesChecker::SeedNode(keep), peer, Outcome::Decided) == Some(t))
            == (seed_nodes_spec().contains(peer.addr) == keep),
        step_spec(t, CapabilitiesChecker::SeedNode(keep), peer, Outcome::Decided) is None
            <==> seed_nodes_spec().contains(peer.addr) != keep,
{
    lemma_latency_rule(ms, max);
}

/// A spy-node filter with a blacklist keeps, when asked for spy nodes, exactly
/// the blacklisted peers, and otherwise exactly the others; without a
/// blacklist, it keeps, when asked for spy nodes, exactly a peer whose pings
/// show it to be one, and otherwise every peer not shown to be one.
pub proof fn lemma_spy_filter_rules(t: ScanTotals, peer: PeerInfo, keep_only: bool, blacklist: Vec<PeerAddr>, pings: Option<PingIds>)
    ensures
        blacklist@.len() > 0 ==> (step_spec(t, CapabilitiesChecker::SpyNode(keep_only, blacklist), peer, Outcome::Decided) is Some
            <==> blacklist@.contains(peer.addr) == keep_only),
        blacklist@.len() == 0 ==> (step_spec(t, CapabilitiesChecker::SpyNode(keep_only, blacklist), peer, Outcome::Pings(pings)) is Some
            <==> (if keep_only {
                pings matches Some(p) && !(peer.peer_id == p.first && p.first == p.second && p.second == p.third)
            } else {
                !(pings matches Some(p) && !(peer.peer_id == p.first && p.first == p.second && p.second == p.third))
            })),
{
}

} // verus!
