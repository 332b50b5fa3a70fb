//! Decision core of a peer-to-peer node runtime.
//!
//! The library holds the parts of a node that decide: the registry that maps
//! ALPN identifiers to protocol handlers, the builder's configuration and the
//! plan it turns into, the startup sequence, the supervisor's event loop and
//! shutdown sequence, the garbage-collection cycle, and the choice of the
//! control-plane RPC port.
//! Each is a plain value or a state machine; the async runtime that performs
//! the actions they choose lives outside the library.
pub mod alpn;
pub mod builder;
pub mod config;
pub mod gc;
pub mod registry;
pub mod rpc;
pub mod startup;
pub mod supervisor;
