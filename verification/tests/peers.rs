use monero_crawler_lib::peer::{clear_addresses, NetworkAddr, PeerAddr};
use monero_crawler_lib::seeds::{contains_addr, is_seed_node, seed_nodes, SEED_PORT};

#[test]
fn v4_address_holds_big_endian_bits() {
    let a = PeerAddr::v4(176, 9, 0, 187, 18080);
    assert_eq!(a, PeerAddr::V4 { ip: 0xB009_00BB, port: 18080 });
    assert_eq!(a.port(), 18080);
}

#[test]
fn with_port_keeps_the_ip() {
    let a = PeerAddr::V6 { ip: 1, port: 18080, flowinfo: 7, scope_id: 9 };
    assert_eq!(a.with_port(18089), PeerAddr::V6 { ip: 1, port: 18089, flowinfo: 7, scope_id: 9 });
    let b = PeerAddr::v4(10, 0, 0, 1, 1);
    assert_eq!(b.with_port(2).port(), 2);
}

#[test]
fn seed_nodes_are_the_monero_seeds() {
    let seeds = seed_nodes();
    assert_eq!(seeds.len(), 7);
    assert_eq!(seeds[0], PeerAddr::v4(176, 9, 0, 187, 18080));
    assert_eq!(seeds[1], PeerAddr::v4(88, 198, 163, 90, 18080));
    assert_eq!(seeds[2], PeerAddr::v4(66, 85, 74, 134, 18080));
    assert_eq!(seeds[3], PeerAddr::v4(51, 79, 173, 165, 18080));
    assert_eq!(seeds[4], PeerAddr::v4(192, 99, 8, 110, 18080));
    assert_eq!(seeds[5], PeerAddr::v4(37, 187, 74, 171, 18080));
    assert_eq!(seeds[6], PeerAddr::v4(88, 99, 195, 15, 18080));
    assert!(seeds.iter().all(|s| s.port() == SEED_PORT));
}

#[test]
fn seed_membership() {
    assert!(is_seed_node(&PeerAddr::v4(88, 99, 195, 15, 18080)));
    assert!(!is_seed_node(&PeerAddr::v4(88, 99, 195, 15, 18081)));
    assert!(!is_seed_node(&PeerAddr::v4(1, 2, 3, 4, 18080)));
}

#[test]
fn contains_addr_on_empty_and_full_lists() {
    let a = PeerAddr::v4(1, 2, 3, 4, 5);
    assert!(!contains_addr(&vec![], &a));
    assert!(contains_addr(&vec![PeerAddr::v4(9, 9, 9, 9, 9), a], &a));
}

#[test]
fn clear_addresses_keeps_clear_net_in_order() {
    let a = PeerAddr::v4(1, 1, 1, 1, 18080);
    let b = PeerAddr::v4(2, 2, 2, 2, 18080);
    let list = vec![NetworkAddr::Other, NetworkAddr::Clear(a), NetworkAddr::Other, NetworkAddr::Clear(b)];
    assert_eq!(clear_addresses(&list), vec![a, b]);
    assert_eq!(clear_addresses(&vec![NetworkAddr::Other]), vec![]);
}
