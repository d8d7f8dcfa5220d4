use monero_crawler_lib::capability_checkers::{
    is_blockchain_synced, is_latency_capable, is_spynode, is_zmq_pub_refusal, spynode_by_blacklist,
    spynode_by_pings, PingIds, PortSearch,
};
use monero_crawler_lib::peer::PeerAddr;

#[test]
fn latency_within_bound_is_reported() {
    assert_eq!(is_latency_capable(Some(42), 100), Some(42));
    assert_eq!(is_latency_capable(Some(100), 100), Some(100));
}

#[test]
fn latency_over_bound_or_timeout_is_refused() {
    assert_eq!(is_latency_capable(Some(101), 100), None);
    assert_eq!(is_latency_capable(None, 100), None);
}

#[test]
fn latency_is_truncated_to_u32() {
    assert_eq!(is_latency_capable(Some((1u128 << 32) + 5), 100), Some(5));
}

#[test]
fn synced_compares_heights() {
    assert!(is_blockchain_synced(3_000_000, Some(3_000_000)));
    assert!(is_blockchain_synced(3_000_001, Some(3_000_000)));
    assert!(!is_blockchain_synced(2_999_999, Some(3_000_000)));
    assert!(!is_blockchain_synced(u64::MAX, None));
}

#[test]
fn blacklist_decides_when_given() {
    let a = PeerAddr::v4(1, 2, 3, 4, 18080);
    let b = PeerAddr::v4(5, 6, 7, 8, 18080);
    assert_eq!(spynode_by_blacklist(&a, &vec![a]), Some(true));
    assert_eq!(spynode_by_blacklist(&a, &vec![b]), Some(false));
    assert_eq!(spynode_by_blacklist(&a, &vec![]), None);
    // the pings are not read when a blacklist is given
    let changing = Some(PingIds { first: 1, second: 2, third: 3 });
    assert_eq!(is_spynode(&a, 1, &vec![b], changing), Some(false));
}

#[test]
fn pings_reveal_spy_nodes() {
    let same = PingIds { first: 7, second: 7, third: 7 };
    assert_eq!(spynode_by_pings(7, Some(same)), Some(false));
    assert_eq!(spynode_by_pings(8, Some(same)), Some(true));
    assert_eq!(spynode_by_pings(7, Some(PingIds { first: 7, second: 7, third: 9 })), Some(true));
    assert_eq!(spynode_by_pings(7, None), None);
    let a = PeerAddr::v4(1, 2, 3, 4, 18080);
    assert_eq!(is_spynode(&a, 8, &vec![], Some(same)), Some(true));
}

#[test]
fn zmq_publisher_refusal_is_recognised() {
    assert!(is_zmq_pub_refusal("Provided sockets combination is not compatible"));
    assert!(!is_zmq_pub_refusal("Connection refused"));
    assert!(!is_zmq_pub_refusal(""));
}

#[test]
fn port_search_tries_advertised_port_first() {
    let s = PortSearch::start(18081);
    assert_eq!(s, PortSearch::Check(18081));
    assert_eq!(s.service_checked(true), PortSearch::Found(18081));
    assert_eq!(s.service_checked(true).result(), Some(Some(18081)));
}

#[test]
fn port_search_falls_back_to_open_ports() {
    let s = PortSearch::start(18081).service_checked(false);
    assert_eq!(s, PortSearch::AwaitOpenPort);
    assert_eq!(s.result(), None);
    let s = s.open_port(Some(18089));
    assert_eq!(s, PortSearch::Check(18089));
    let s = s.service_checked(false).open_port(None);
    assert_eq!(s, PortSearch::NotFound);
    assert_eq!(s.result(), Some(None));
}

#[test]
fn port_search_without_advertised_port_scans() {
    let s = PortSearch::start(0);
    assert_eq!(s, PortSearch::AwaitOpenPort);
    assert_eq!(s.open_port(Some(18083)).service_checked(true), PortSearch::Found(18083));
}
