# monero_crawler_lib

A crawler of the Monero peer-to-peer network, verified with Verus.

- `src/` is the library. `peer` and `seeds` hold peer addresses and the seed
  nodes; `capability_checkers` the decisions behind each capability (latency,
  spy nodes, chain height, ZMQ publishers, the search for a service port);
  `scan` the evaluation of one peer against a list of capabilities, as a state
  machine that hands each network probe to its caller; `laws` what holds of
  every evaluation; `crawl` the crawl's settings, its builder, the data of our
  handshake and the choice of the peers to reach; `rpc` the JSON-RPC request
  that checks a node and its success test; `config` the server's
  default configuration.
- `app/` is the program around it: the server, and the asynchronous tasks that
  connect to peers, exchange handshakes and pings, and run the probes.
- `tests/` exercises the library on concrete values.
