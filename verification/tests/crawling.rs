use std::path::PathBuf;
use std::sync::Arc;
use std::time::Duration;

use monero_crawler_lib::config::{Config, DEFAULT_LISTEN_PORT};
use monero_crawler_lib::crawl::{
    claimed_targets, crawl_action, handshake_node_data, CrawlAction, handshake_sync_data, CrawlBuilder, Network,
};
use monero_crawler_lib::capability_checkers::CapabilitiesChecker;
use monero_crawler_lib::peer::PeerAddr;
use monero_crawler_lib::seeds::seed_nodes;
use tokio::sync::Semaphore;

#[test]
fn builder_defaults() {
    let crawl = CrawlBuilder::default().build().unwrap();
    assert_eq!(crawl.seeds(), &seed_nodes());
    assert_eq!(crawl.timeout_duration(), Duration::from_secs(5));
    assert_eq!(crawl.connections_limit().available_permits(), 100);
    assert_eq!(crawl.chainnet(), Network::Mainnet);
    assert!(crawl.capabilities().is_empty());
}

#[test]
fn builder_keeps_what_is_set() {
    let seeds = vec![PeerAddr::v4(1, 2, 3, 4, 18080)];
    let crawl = CrawlBuilder::default()
        .seeds(seeds.clone())
        .timeout_duration(Duration::from_millis(1500))
        .connections_limit(Arc::new(Semaphore::new(3)))
        .chainnet(Network::Stagenet)
        .capabilities(vec![CapabilitiesChecker::Latency(100), CapabilitiesChecker::SeedNode(false)])
        .build()
        .unwrap();
    assert_eq!(crawl.seeds(), &seeds);
    assert_eq!(crawl.timeout_duration(), Duration::from_millis(1500));
    assert_eq!(crawl.connections_limit().available_permits(), 3);
    assert_eq!(crawl.chainnet(), Network::Stagenet);
    assert_eq!(crawl.capabilities().len(), 2);
}

#[test]
fn network_defaults_to_mainnet() {
    assert_eq!(Network::default(), Network::Mainnet);
}

#[test]
fn handshake_data_announces_no_services() {
    let d = handshake_node_data(Network::Testnet, 12345);
    assert_eq!(d.my_port, 0);
    assert_eq!(d.network, Network::Testnet);
    assert_eq!(d.peer_id, 12345);
    assert!(d.fluffy_blocks);
    assert_eq!(d.rpc_port, 0);
    assert_eq!(d.rpc_credits_per_hash, 0);
    let s = handshake_sync_data();
    assert_eq!(s.cumulative_difficulty, 0);
    assert_eq!(s.current_height, 0);
    assert_eq!(s.pruning_seed, 0);
    assert_eq!(s.top_id, [0u8; 32]);
    assert_eq!(s.top_version, 0);
}

#[test]
fn crawl_handshake_uses_crawl_network() {
    let crawl = CrawlBuilder::default().chainnet(Network::Testnet).build().unwrap();
    let d = crawl.new_handshake_node_data().unwrap();
    assert_eq!(d, handshake_node_data(Network::Testnet, d.peer_id));
}

#[test]
fn default_config() {
    let c = Config::defaults_in(PathBuf::from("/tmp/data")).unwrap();
    assert_eq!(c.db_path, PathBuf::from("/tmp/data/db.sqlite"));
    assert_eq!(c.listen_port, DEFAULT_LISTEN_PORT);
    assert_eq!(c.listen_port, 10200);
    assert_eq!(c.seednodes.len(), 1);
    assert_eq!(c.seednodes[0].as_str(), "http://127.0.0.1:18081/");
}

#[test]
fn claimed_targets_stop_at_the_first_refused_marking() {
    let a = PeerAddr::v4(1, 1, 1, 1, 18080);
    let b = PeerAddr::v4(2, 2, 2, 2, 18080);
    let c = PeerAddr::v4(3, 3, 3, 3, 18080);
    assert_eq!(claimed_targets(&vec![a, b, c], &vec![true, true, true]), vec![a, b, c]);
    assert_eq!(claimed_targets(&vec![a, b, c], &vec![true, false]), vec![a]);
    assert_eq!(claimed_targets(&vec![a, b, c], &vec![false]), vec![]);
    assert_eq!(claimed_targets(&vec![a, b], &vec![true]), vec![a]);
}

#[test]
fn config_from_a_parsed_seed() {
    let url = url::Url::parse("http://10.0.0.1:18089").unwrap();
    let c = Config::with_seed(PathBuf::from("/var/lib/crawler"), Ok(url.clone())).unwrap();
    assert_eq!(c.db_path, PathBuf::from("/var/lib/crawler/db.sqlite"));
    assert_eq!(c.listen_port, 10200);
    assert_eq!(c.seednodes, vec![url]);
    let err = url::Url::parse("not a url").unwrap_err();
    assert_eq!(Config::with_seed(PathBuf::from("/x"), Err(err)).err(), Some(err));
}

#[test]
fn crawl_marks_each_address_in_turn() {
    let a = PeerAddr::v4(1, 1, 1, 1, 18080);
    let b = PeerAddr::v4(2, 2, 2, 2, 18080);
    let addrs = vec![a, b];
    assert_eq!(crawl_action(&addrs, &vec![]), CrawlAction::Mark(a));
    assert_eq!(crawl_action(&addrs, &vec![true]), CrawlAction::Mark(b));
    assert_eq!(crawl_action(&addrs, &vec![true, true]), CrawlAction::Done);
    assert_eq!(claimed_targets(&addrs, &vec![true, true]), vec![a, b]);
}

#[test]
fn crawl_unmarks_and_stops_at_an_address_already_scanned() {
    let a = PeerAddr::v4(1, 1, 1, 1, 18080);
    let b = PeerAddr::v4(2, 2, 2, 2, 18080);
    let c = PeerAddr::v4(3, 3, 3, 3, 18080);
    let addrs = vec![a, b, c];
    assert_eq!(crawl_action(&addrs, &vec![true, false]), CrawlAction::UnmarkAndStop(b));
    assert_eq!(claimed_targets(&addrs, &vec![true, false]), vec![a]);
    assert_eq!(crawl_action(&addrs, &vec![false]), CrawlAction::UnmarkAndStop(a));
}

#[test]
fn crawl_of_an_empty_list_is_done_at_once() {
    assert_eq!(crawl_action(&vec![], &vec![]), CrawlAction::Done);
    assert_eq!(claimed_targets(&vec![], &vec![]), vec![]);
}
