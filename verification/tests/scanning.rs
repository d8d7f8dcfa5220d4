use std::sync::{Arc, Mutex};

use monero_crawler_lib::capability_checkers::{CapabilitiesChecker, PingIds};
use monero_crawler_lib::peer::PeerAddr;
use monero_crawler_lib::scan::{CapabilityScan, Outcome, PeerInfo, Probe, ScanStep, ScanTotals};

fn peer(addr: PeerAddr) -> PeerInfo {
    PeerInfo { addr, rpc_port: 18081, current_height: 3_000_000, peer_id: 77 }
}

fn stranger() -> PeerAddr {
    PeerAddr::v4(10, 20, 30, 40, 18080)
}

#[test]
fn no_capabilities_accepts_with_zero_values() {
    let mut s = CapabilityScan::new(peer(stranger()), vec![]);
    match s.step() {
        ScanStep::Accept(t) => assert_eq!(t, ScanTotals { rpc_port: 0, zmq_port: 0, latency: 0 }),
        other => panic!("unexpected {:?}", other),
    }
}

#[test]
fn full_scan_reports_measured_values() {
    let caps = vec![
        CapabilitiesChecker::Latency(100),
        CapabilitiesChecker::Rpc(vec![18081, 18089]),
        CapabilitiesChecker::Zmq(vec![18083, 18084]),
        CapabilitiesChecker::SpyNode(false, vec![]),
        CapabilitiesChecker::SeedNode(false),
    ];
    let mut s = CapabilityScan::new(peer(stranger()), caps);
    match s.step() {
        ScanStep::Probe(Probe::Latency(100)) => {},
        other => panic!("unexpected {:?}", other),
    }
    s.record(Outcome::Elapsed(Some(35)));
    match s.step() {
        ScanStep::Probe(Probe::Rpc { advertised, ports }) => {
            assert_eq!(advertised, 18081);
            assert_eq!(ports, vec![18081, 18089]);
        },
        other => panic!("unexpected {:?}", other),
    }
    s.record(Outcome::Port(Some(18089)));
    match s.step() {
        ScanStep::Probe(Probe::Zmq(ports)) => assert_eq!(ports, vec![18083, 18084]),
        other => panic!("unexpected {:?}", other),
    }
    s.record(Outcome::Port(Some(18083)));
    match s.step() {
        ScanStep::Probe(Probe::SpyPings) => {},
        other => panic!("unexpected {:?}", other),
    }
    s.record(Outcome::Pings(Some(PingIds { first: 77, second: 77, third: 77 })));
    match s.step() {
        ScanStep::Accept(t) => assert_eq!(t, ScanTotals { rpc_port: 18089, zmq_port: 18083, latency: 35 }),
        other => panic!("unexpected {:?}", other),
    }
}

#[test]
fn slow_peer_is_rejected_and_stays_rejected() {
    let mut s = CapabilityScan::new(peer(stranger()), vec![
        CapabilitiesChecker::Latency(100),
        CapabilitiesChecker::Rpc(vec![]),
    ]);
    assert!(matches!(s.step(), ScanStep::Probe(Probe::Latency(100))));
    s.record(Outcome::Elapsed(Some(250)));
    assert!(matches!(s.step(), ScanStep::Reject));
    assert!(matches!(s.step(), ScanStep::Reject));
}

#[test]
fn seed_node_filter_excludes_or_keeps_seeds() {
    let seed = PeerAddr::v4(176, 9, 0, 187, 18080);
    let mut s = CapabilityScan::new(peer(seed), vec![CapabilitiesChecker::SeedNode(false)]);
    assert!(matches!(s.step(), ScanStep::Reject));
    let mut s = CapabilityScan::new(peer(seed), vec![CapabilitiesChecker::SeedNode(true)]);
    assert!(matches!(s.step(), ScanStep::Accept(_)));
    let mut s = CapabilityScan::new(peer(stranger()), vec![CapabilitiesChecker::SeedNode(true)]);
    assert!(matches!(s.step(), ScanStep::Reject));
}

#[test]
fn spy_blacklist_needs_no_probe() {
    let spy = stranger();
    let mut s = CapabilityScan::new(peer(spy), vec![CapabilitiesChecker::SpyNode(false, vec![spy])]);
    assert!(matches!(s.step(), ScanStep::Reject));
    let mut s = CapabilityScan::new(peer(spy), vec![CapabilitiesChecker::SpyNode(true, vec![spy])]);
    assert!(matches!(s.step(), ScanStep::Accept(_)));
}

#[test]
fn spy_pings_keep_only_spies_when_asked() {
    let caps = vec![CapabilitiesChecker::SpyNode(true, vec![])];
    let mut s = CapabilityScan::new(peer(stranger()), caps.clone());
    assert!(matches!(s.step(), ScanStep::Probe(Probe::SpyPings)));
    s.record(Outcome::Pings(Some(PingIds { first: 1, second: 2, third: 2 })));
    assert!(matches!(s.step(), ScanStep::Accept(_)));
    let mut s = CapabilityScan::new(peer(stranger()), caps);
    assert!(matches!(s.step(), ScanStep::Probe(Probe::SpyPings)));
    s.record(Outcome::Pings(None));
    assert!(matches!(s.step(), ScanStep::Reject));
}

#[test]
fn chain_synced_asks_for_the_shared_height() {
    let height = Arc::new(Mutex::new(3_000_000u64));
    let mut s = CapabilityScan::new(peer(stranger()), vec![CapabilitiesChecker::ChainSynced(height.clone())]);
    match s.step() {
        ScanStep::Probe(Probe::RequiredHeight(h)) => assert!(Arc::ptr_eq(&h, &height)),
        other => panic!("unexpected {:?}", other),
    }
    s.record(Outcome::RequiredHeight(Some(3_000_000)));
    assert!(matches!(s.step(), ScanStep::Accept(_)));
    let mut s = CapabilityScan::new(peer(stranger()), vec![CapabilitiesChecker::ChainSynced(height.clone())]);
    assert!(matches!(s.step(), ScanStep::Probe(Probe::RequiredHeight(_))));
    s.record(Outcome::RequiredHeight(Some(3_000_001)));
    assert!(matches!(s.step(), ScanStep::Reject));
    let mut s = CapabilityScan::new(peer(stranger()), vec![CapabilitiesChecker::ChainSynced(height)]);
    assert!(matches!(s.step(), ScanStep::Probe(Probe::RequiredHeight(_))));
    s.record(Outcome::RequiredHeight(None));
    assert!(matches!(s.step(), ScanStep::Reject));
}

#[test]
fn last_rpc_capability_gives_the_port() {
    let mut s = CapabilityScan::new(peer(stranger()), vec![
        CapabilitiesChecker::Rpc(vec![]),
        CapabilitiesChecker::Rpc(vec![18089]),
    ]);
    assert!(matches!(s.step(), ScanStep::Probe(Probe::Rpc { .. })));
    s.record(Outcome::Port(Some(18081)));
    assert!(matches!(s.step(), ScanStep::Probe(Probe::Rpc { .. })));
    s.record(Outcome::Port(Some(18089)));
    match s.step() {
        ScanStep::Accept(t) => assert_eq!(t, ScanTotals { rpc_port: 18089, zmq_port: 0, latency: 0 }),
        other => panic!("unexpected {:?}", other),
    }
}

#[test]
fn missing_rpc_port_rejects() {
    let mut s = CapabilityScan::new(peer(stranger()), vec![CapabilitiesChecker::Zmq(vec![18083])]);
    assert!(matches!(s.step(), ScanStep::Probe(Probe::Zmq(_))));
    s.record(Outcome::Port(None));
    assert!(matches!(s.step(), ScanStep::Reject));
}

#[test]
fn spy_pings_exclude_spies_by_default() {
    let caps = vec![CapabilitiesChecker::SpyNode(false, vec![])];
    let mut s = CapabilityScan::new(peer(stranger()), caps.clone());
    assert!(matches!(s.step(), ScanStep::Probe(Probe::SpyPings)));
    s.record(Outcome::Pings(Some(PingIds { first: 5, second: 5, third: 5 })));
    assert!(matches!(s.step(), ScanStep::Reject));
    let mut s = CapabilityScan::new(peer(stranger()), caps.clone());
    assert!(matches!(s.step(), ScanStep::Probe(Probe::SpyPings)));
    s.record(Outcome::Pings(Some(PingIds { first: 77, second: 77, third: 77 })));
    assert!(matches!(s.step(), ScanStep::Accept(_)));
    // a peer that could not be pinged is not known to be a spy node
    let mut s = CapabilityScan::new(peer(stranger()), caps);
    assert!(matches!(s.step(), ScanStep::Probe(Probe::SpyPings)));
    s.record(Outcome::Pings(None));
    assert!(matches!(s.step(), ScanStep::Accept(_)));
}
