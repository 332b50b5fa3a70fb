use std::time::Duration;

use iroh::config::{peer_transport_limits, rpc_transport_limits, GcPolicy, DEFAULT_RPC_PORT};

#[test]
fn default_gc_policy_is_five_minutes() {
    assert_eq!(GcPolicy::default(), GcPolicy::Interval(Duration::from_secs(300)));
}

#[test]
fn transport_limits() {
    let peer = peer_transport_limits();
    assert_eq!(peer.max_connections, 1024);
    assert_eq!(peer.max_bidi_streams, 10);
    assert_eq!(peer.max_uni_streams, 0);
    let rpc = rpc_transport_limits();
    assert_eq!(rpc.max_connections, 16);
    assert_eq!(rpc.max_bidi_streams, 1024);
    assert_eq!(rpc.max_uni_streams, 0);
    assert_eq!(DEFAULT_RPC_PORT, 0x1337);
}
