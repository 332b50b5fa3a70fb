//! Choice of the port of the local RPC endpoint.
//!
//! The endpoint first binds the preferred port. When that port is in use it
//! binds a port that the system picks; any other failure, or a failure of
//! that second attempt, is fatal.
use vstd::prelude::*;

verus! {

/// What binding a port came to.
#[derive(Debug, Clone, Copy, PartialEq, Eq)]
pub enum BindOutcome {
    /// Bound; the endpoint listens on `port`.
    Bound { port: u16 },
    /// The port is taken.
    AddrInUse,
    /// Another error.
    Failed,
}

/// What to do after a bind attempt.
#[derive(Debug, Clone, Copy, PartialEq, Eq)]
pub enum RpcBindStep {
    /// Try to bind this port; `0` lets the system pick.
    Bind { port: u16 },
    /// The endpoint listens on `port`, which is recorded as the RPC port.
    Done { port: u16 },
    /// Give up with the error.
    Fail,
}

/// The first attempt: the preferred port.
pub fn first_rpc_bind(preferred: u16) -> (r: RpcBindStep)
    ensures
        r == (RpcBindStep::Bind { port: preferred }),
{
    RpcBindStep::Bind { port: preferred }
}

/// The step after an attempt, the first one when `first_attempt`.
pub fn next_rpc_bind(first_attempt: bool, outcome: BindOutcome) -> (r: RpcBindStep)
    ensures
        outcome matches BindOutcome::Bound { port } ==> r == (RpcBindStep::Done { port }),
        outcome is AddrInUse ==> r == if first_attempt {
            RpcBindStep::Bind { port: 0 }
        } else {
            RpcBindStep::Fail
        },
        outcome is Failed ==> r == RpcBindStep::Fail,
{
    match outcome {
        BindOutcome::Bound { port } => RpcBindStep::Done { port },
        BindOutcome::AddrInUse => if first_attempt {
            RpcBindStep::Bind { port: 0 }
        } else {
            RpcBindStep::Fail
        },
        BindOutcome::Failed => RpcBindStep::Fail,
    }
}

} // verus!
