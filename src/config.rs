//! Configuration values of a node: storage modes, the garbage-collection
//! policy, and the fixed transport parameters.
use std::path::PathBuf;
use std::time::Duration;

use vstd::prelude::*;

verus! {

/// `std::path::PathBuf`, carried as an opaque value: storage roots and the
/// document database's path are handed on, never read.
#[verifier::external_type_specification]
#[verifier::external_body]
pub struct ExPathBuf(PathBuf);

/// Relies on `PathBuf::clone`, which the derived `Clone` of `DocsStorage`
/// calls; nothing is stated of the copy.
pub assume_specification[ <PathBuf as Clone>::clone ](p: &PathBuf) -> PathBuf;

/// The duration that `Duration::from_secs` returns for a number of seconds.
pub uninterp spec fn duration_from_secs(secs: u64) -> Duration;

/// Relies on `Duration::from_secs`: the result depends on its argument alone.
pub assume_specification[ Duration::from_secs ](secs: u64) -> (r: Duration)
    ensures
        r == duration_from_secs(secs),
;

/// Port of the peer endpoint when none is configured.
pub const DEFAULT_BIND_PORT: u16 = 11204;

/// Preferred port of the local RPC endpoint.
pub const DEFAULT_RPC_PORT: u16 = 0x1337;

/// Seconds the node waits at startup for its first local address.
pub const ENDPOINT_WAIT_SECS: u64 = 5;

/// Seconds between garbage-collection runs under the default policy.
pub const DEFAULT_GC_INTERVAL_SECS: u64 = 60 * 5;

/// Concurrent connections the peer endpoint accepts.
pub const MAX_CONNECTIONS: u32 = 1024;

/// Concurrent bidirectional streams per peer connection.
pub const MAX_STREAMS: u64 = 10;

/// Concurrent connections the RPC endpoint accepts.
pub const MAX_RPC_CONNECTIONS: u32 = 16;

/// Concurrent bidirectional streams per RPC connection.
pub const MAX_RPC_STREAMS: u32 = 1024;

/// Storage backend for documents.
#[derive(Debug, Clone)]
pub enum DocsStorage {
    /// In-memory storage.
    Memory,
    /// File-based persistent storage.
    Persistent(PathBuf),
}

/// Configuration for storage.
#[derive(Debug)]
pub enum StorageConfig {
    /// In memory.
    Mem,
    /// Persisted on disk, under this root directory.
    Persistent(PathBuf),
}

/// Policy for garbage collection.
#[derive(Debug, Clone, Copy, PartialEq, Eq)]
pub enum GcPolicy {
    /// Garbage collection is disabled.
    Disabled,
    /// Garbage collection is run at the given interval.
    Interval(Duration),
}

impl Default for GcPolicy {
    /// Collection every five minutes.
    fn default() -> (r: Self)
        ensures
            r == GcPolicy::Interval(duration_from_secs(DEFAULT_GC_INTERVAL_SECS)),
    {
        GcPolicy::Interval(Duration::from_secs(DEFAULT_GC_INTERVAL_SECS))
    }
}

/// Limits applied to the connections of an endpoint.
#[derive(Debug, Clone, Copy, PartialEq, Eq)]
pub struct TransportLimits {
    /// Concurrent connections accepted.
    pub max_connections: u32,
    /// Concurrent bidirectional streams per connection.
    pub max_bidi_streams: u64,
    /// Concurrent unidirectional streams per connection.
    pub max_uni_streams: u64,
}

/// Limits of the peer endpoint: protocols that need unidirectional streams
/// open them explicitly per connection.
pub fn peer_transport_limits() -> (r: TransportLimits)
    ensures
        r.max_connections == 1024,
        r.max_bidi_streams == 10,
        r.max_uni_streams == 0,
{
    TransportLimits {
        max_connections: MAX_CONNECTIONS,
        max_bidi_streams: MAX_STREAMS,
        max_uni_streams: 0,
    }
}

/// Limits of the local RPC endpoint.
pub fn rpc_transport_limits() -> (r: TransportLimits)
    ensures
        r.max_connections == 16,
        r.max_bidi_streams == 1024,
        r.max_uni_streams == 0,
{
    TransportLimits {
        max_connections: MAX_RPC_CONNECTIONS,
        max_bidi_streams: MAX_RPC_STREAMS as u64,
        max_uni_streams: 0,
    }
}

} // verus!
