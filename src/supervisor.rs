//! The supervisor: the event loop of a running node and its shutdown
//! sequence, as a state machine.
//!
//! The runtime waits on its sources, hands each event to [`Supervisor::step`]
//! and performs the action it returns. During shutdown it reports the end of
//! each action with [`Event::StepDone`].
use vstd::prelude::*;

use crate::registry::{absent, keys_unique, ProtocolMap};

verus! {

/// What the runtime observed.
pub enum Event {
    /// The cancellation token was tripped.
    Cancelled,
    /// An RPC request arrived, on the in-process channel when `internal`.
    RpcRequest { internal: bool },
    /// Accepting an RPC request failed.
    RpcError { internal: bool },
    /// A peer connection arrived. `alpn` is its identifier, or `None` when
    /// the handshake failed before it could be read.
    Connection { alpn: Option<Vec<u8>> },
    /// Every source reported its end.
    SourcesExhausted,
    /// The action last returned during shutdown has completed, with or
    /// without error.
    StepDone,
}

/// What the runtime is to do next.
#[derive(Debug, Clone, Copy, PartialEq, Eq)]
pub enum Action {
    /// Hand the request to the RPC dispatcher.
    HandleRpc { internal: bool },
    /// Log the failed accept; the loop goes on.
    LogRpcError { internal: bool },
    /// Spawn a task that runs the handler at this position of the registry
    /// on the connection.
    Dispatch { index: usize },
    /// Drop the connection: no protocol is registered for its identifier.
    RejectConnection,
    /// Drop the connection: its handshake failed.
    DropHandshake,
    /// Flush the blob store.
    FlushStore,
    /// Shut down the handler at this position of the registry.
    ShutdownHandler { index: usize },
    /// Close the endpoint; streams in flight abort.
    CloseEndpoint,
    /// Abort the background tasks that still run.
    AbortTasks,
    /// Nothing to do.
    Idle,
}

/// Where the supervisor stands.
#[derive(Debug, Clone, Copy, PartialEq, Eq)]
pub enum Phase {
    /// Accepting requests and connections.
    Running,
    /// Waiting for the store to flush.
    FlushingStore,
    /// Waiting for the handler at this position to shut down.
    ShuttingDown(usize),
    /// Waiting for the endpoint to close.
    ClosingEndpoint,
    /// Waiting for the background tasks to stop.
    AbortingTasks,
    /// Done.
    Stopped,
}

/// The positions `0..n`, in order.
pub open spec fn first_positions(n: int) -> Seq<int> {
    Seq::new(n as nat, |j: int| j)
}

/// The state of a running node's supervisor.
pub struct Supervisor<H> {
    registry: ProtocolMap<H>,
    phase: Phase,
    cancelled: bool,
    completed: Ghost<Seq<int>>,
}

impl<H> Supervisor<H> {
    /// The registry the supervisor dispatches to.
    pub closed spec fn spec_registry(&self) -> ProtocolMap<H> {
        self.registry
    }

    pub closed spec fn spec_phase(&self) -> Phase {
        self.phase
    }

    /// Whether shutdown came from the cancellation token.
    pub closed spec fn spec_cancelled(&self) -> bool {
        self.cancelled
    }

    /// Positions of the handlers whose shutdown has completed, in order.
    pub closed spec fn completed_shutdowns(&self) -> Seq<int> {
        self.completed@
    }

    /// How many handlers have completed shutdown in the current phase.
    pub open spec fn shut_down_count(&self) -> int {
        match self.spec_phase() {
            Phase::Running | Phase::FlushingStore => 0,
            Phase::ShuttingDown(i) => i as int,
            _ => if self.spec_cancelled() {
                self.spec_registry().keys().len() as int
            } else {
                0
            },
        }
    }

    pub open spec fn wf(&self) -> bool {
        &&& self.spec_registry().wf()
        &&& (self.spec_phase() matches Phase::ShuttingDown(i) ==> i < self.spec_registry().keys().len())
        &&& (self.spec_phase() is Running ==> !self.spec_cancelled())
        &&& (self.spec_phase() is FlushingStore ==> self.spec_cancelled())
        &&& (self.spec_phase() is ShuttingDown ==> self.spec_cancelled())
        &&& self.completed_shutdowns() == first_positions(self.shut_down_count())
    }

    /// A supervisor over a registry that is frozen from here on.
    pub fn new(registry: ProtocolMap<H>) -> (r: Self)
        requires
            registry.wf(),
        ensures
            r.wf(),
            r.spec_registry() == registry,
            r.spec_phase() == Phase::Running,
    {
        let r = Supervisor {
            registry,
            phase: Phase::Running,
            cancelled: false,
            completed: Ghost(Seq::empty()),
        };
        assert(r.completed_shutdowns() =~= first_positions(0));
        r
    }

    /// The registry, for reading only.
    pub fn registry(&self) -> (r: &ProtocolMap<H>)
        ensures
            *r == self.spec_registry(),
    {
        &self.registry
    }

    /// Where the supervisor stands.
    pub fn phase(&self) -> (r: Phase)
        ensures
            r == self.spec_phase(),
    {
        self.phase
    }

    /// The action to take after the shutdown of the handlers at positions
    /// below `next` has completed.
    fn after_handlers(&mut self, next: usize) -> (r: Action)
        requires
            old(self).spec_registry().wf(),
            next <= old(self).spec_registry().keys().len(),
            old(self).spec_cancelled(),
            old(self).completed_shutdowns() == first_positions(next as int),
        ensures
            final(self).wf(),
            final(self).spec_registry() == old(self).spec_registry(),
            final(self).spec_cancelled(),
            next < old(self).spec_registry().keys().len() ==> {
                &&& r == Action::ShutdownHandler { index: next }
                &&& final(self).spec_phase() == Phase::ShuttingDown(next)
            },
            next == old(self).spec_registry().keys().len() ==> {
                &&& r == Action::CloseEndpoint
                &&& final(self).spec_phase() == Phase::ClosingEndpoint
            },
    {
        if next < self.registry.len() {
            self.phase = Phase::ShuttingDown(next);
            Action::ShutdownHandler { index: next }
        } else {
            self.phase = Phase::ClosingEndpoint;
            Action::CloseEndpoint
        }
    }

    /// Takes one event and returns the action it calls for.
    ///
    /// While running, a connection goes to the handler registered for its
    /// identifier and to no other. Cancellation starts the shutdown
    /// sequence: flush the store, shut the handlers down one at a time in
    /// order of registration, close the endpoint, abort the background
    /// tasks. Cancellation after that changes nothing. The registry is never
    /// changed.
    pub fn step(&mut self, event: Event) -> (r: Action)
        requires
            old(self).wf(),
        ensures
            final(self).wf(),
            final(self).spec_registry() == old(self).spec_registry(),
            old(self).completed_shutdowns().len() <= final(self).completed_shutdowns().len(),
            old(self).completed_shutdowns() == final(self).completed_shutdowns().take(
                old(self).completed_shutdowns().len() as int,
            ),
            old(self).spec_phase() is Running ==> match event {
                Event::Cancelled => r == Action::FlushStore && final(self).spec_phase()
                    == Phase::FlushingStore,
                Event::RpcRequest { internal } => r == (Action::HandleRpc { internal })
                    && final(self).spec_phase() == Phase::Running,
                Event::RpcError { internal } => r == (Action::LogRpcError { internal })
                    && final(self).spec_phase() == Phase::Running,
                Event::Connection { alpn: None } => r == Action::DropHandshake
                    && final(self).spec_phase() == Phase::Running,
                Event::Connection { alpn: Some(a) } => final(self).spec_phase() == Phase::Running
                    && match r {
                    Action::Dispatch { index } => index < old(self).spec_registry().keys().len()
                        && old(self).spec_registry().keys()[index as int] == a@,
                    Action::RejectConnection => absent(old(self).spec_registry().keys(), a@),
                    _ => false,
                },
                Event::SourcesExhausted => r == Action::CloseEndpoint && final(self).spec_phase()
                    == Phase::ClosingEndpoint,
                Event::StepDone => r == Action::Idle && final(self).spec_phase()
                    == Phase::Running,
            },
            old(self).spec_phase() !is Running && event is Cancelled ==> r == Action::Idle
                && *final(self) == *old(self),
            old(self).spec_phase() !is Running && !(event is StepDone) ==> r == Action::Idle
                && *final(self) == *old(self),
            old(self).spec_phase() is FlushingStore && event is StepDone ==> {
                if old(self).spec_registry().keys().len() > 0 {
                    r == (Action::ShutdownHandler { index: 0 }) && final(self).spec_phase()
                        == Phase::ShuttingDown(0)
                } else {
                    r == Action::CloseEndpoint && final(self).spec_phase()
                        == Phase::ClosingEndpoint
                }
            },
            event is StepDone ==> (old(self).spec_phase() matches Phase::ShuttingDown(i) ==> {
                &&& final(self).completed_shutdowns() == old(self).completed_shutdowns().push(
                    i as int,
                )
                &&& if i + 1 < old(self).spec_registry().keys().len() {
                    r == (Action::ShutdownHandler { index: (i + 1) as usize })
                        && final(self).spec_phase() == Phase::ShuttingDown((i + 1) as usize)
                } else {
                    r == Action::CloseEndpoint && final(self).spec_phase()
                        == Phase::ClosingEndpoint
                }
            }),
            old(self).spec_phase() is ClosingEndpoint && event is StepDone ==> r
                == Action::AbortTasks && final(self).spec_phase() == Phase::AbortingTasks,
            old(self).spec_phase() is AbortingTasks && event is StepDone ==> r == Action::Idle
                && final(self).spec_phase() == Phase::Stopped,
            old(self).spec_phase() is Stopped ==> r == Action::Idle && *final(self) == *old(
                self,
            ),
    {
        match self.phase {
            Phase::Running => match event {
                Event::Cancelled => {
                    self.phase = Phase::FlushingStore;
                    self.cancelled = true;
                    Action::FlushStore
                },
                Event::RpcRequest { internal } => Action::HandleRpc { internal },
                Event::RpcError { internal } => Action::LogRpcError { internal },
                Event::Connection { alpn } => match alpn {
                    None => Action::DropHandshake,
                    Some(a) => match self.registry.position(a.as_slice()) {
                        Some(index) => Action::Dispatch { index },
                        None => Action::RejectConnection,
                    },
                },
                Event::SourcesExhausted => {
                    self.phase = Phase::ClosingEndpoint;
                    Action::CloseEndpoint
                },
                Event::StepDone => Action::Idle,
            },
            Phase::FlushingStore => match event {
                Event::StepDone => {
                    assert(first_positions(0) =~= self.completed@);
                    self.after_handlers(0)
                },
                _ => Action::Idle,
            },
            Phase::ShuttingDown(i) => match event {
                Event::StepDone => {
                    let n = self.registry.len();
                    let ghost before = self.completed@;
                    self.completed = Ghost(self.completed@.push(i as int));
                    assert(self.completed@ =~= first_positions(i + 1));
                    let r = self.after_handlers(i + 1);
                    assert(before =~= self.completed@.take(before.len() as int));
                    r
                },
                _ => Action::Idle,
            },
            Phase::ClosingEndpoint => match event {
                Event::StepDone => {
                    self.phase = Phase::AbortingTasks;
                    Action::AbortTasks
                },
                _ => Action::Idle,
            },
            Phase::AbortingTasks => match event {
                Event::StepDone => {
                    self.phase = Phase::Stopped;
                    Action::Idle
                },
                _ => Action::Idle,
            },
            Phase::Stopped => Action::Idle,
        }
    }
}

/// A connection whose identifier is registered is dispatched to the handler
/// registered for that identifier and to no other position of the registry.
pub proof fn lemma_dispatch_is_exact<H>(s: Supervisor<H>, alpn: Seq<u8>, index: int)
    requires
        s.wf(),
        0 <= index < s.spec_registry().keys().len(),
        s.spec_registry().keys()[index] == alpn,
    ensures
        forall|j: int|
            0 <= j < s.spec_registry().keys().len() && s.spec_registry().keys()[j] == alpn ==> j
                == index,
{
    s.spec_registry().lemma_keys_unique();
}

/// Once a cancelled supervisor has moved past its handlers, the shutdown of
/// every registered handler has completed, each once, in order of
/// registration.
pub proof fn lemma_every_handler_shut_down<H>(s: Supervisor<H>)
    requires
        s.wf(),
        s.spec_cancelled(),
        s.spec_phase() is ClosingEndpoint || s.spec_phase() is AbortingTasks || s.spec_phase() is Stopped,
    ensures
        s.completed_shutdowns().len() == s.spec_registry().keys().len(),
        forall|i: int|
            0 <= i < s.spec_registry().keys().len() ==> s.completed_shutdowns()[i] == i,
{
}

} // verus!
