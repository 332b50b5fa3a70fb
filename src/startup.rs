//! The startup sequence of a node, as a state machine.
//!
//! Spawning binds the endpoint, builds the registered protocols one at a
//! time in order of registration, spawns the supervisor, the
//! garbage-collection loop when a policy asks for it and the address
//! fan-out, then waits for the first local address. A failure at any step
//! shuts the blob store down before the error is returned, and no node is
//! handed out.
use vstd::prelude::*;

use crate::config::ENDPOINT_WAIT_SECS;
use crate::supervisor::first_positions;

verus! {

/// How the step last asked for went.
#[derive(Debug, Clone, Copy, PartialEq, Eq)]
pub enum StartupEvent {
    /// The step succeeded.
    Succeeded,
    /// The step failed.
    Failed,
}

/// What the runtime is to do next.
#[derive(Debug, Clone, Copy, PartialEq, Eq)]
pub enum StartupAction {
    /// Bind the peer endpoint.
    BindEndpoint,
    /// Build the protocol of the registration at `index` and register it.
    BuildProtocol { index: usize },
    /// Spawn the supervisor over the now frozen registry.
    SpawnSupervisor,
    /// Spawn the garbage-collection loop.
    SpawnGc,
    /// Spawn the task that forwards address updates to gossip, if gossip is
    /// registered.
    SpawnFanout,
    /// Wait at most `secs` seconds for a first local address.
    WaitForAddress { secs: u64 },
    /// Shut the blob store down; the node failed to start.
    ShutdownStore,
    /// Hand the node out.
    Ready,
    /// Return the error.
    Fail,
    /// Nothing to do.
    Idle,
}

/// Where startup stands.
#[derive(Debug, Clone, Copy, PartialEq, Eq)]
pub enum StartupPhase {
    Binding,
    Building(usize),
    SpawningSupervisor,
    SpawningGc,
    SpawningFanout,
    WaitingForAddress,
    ShuttingStore,
    Ready,
    Failed,
}

/// The state of a node's startup.
pub struct Startup {
    phase: StartupPhase,
    protocols: usize,
    gc: bool,
    built: Ghost<Seq<int>>,
}

/// Whether startup is still in one of its steps towards a running node.
pub open spec fn in_progress(p: StartupPhase) -> bool {
    !(p is ShuttingStore || p is Ready || p is Failed)
}

impl Startup {
    pub closed spec fn spec_phase(&self) -> StartupPhase {
        self.phase
    }

    /// Number of protocol registrations to build.
    pub closed spec fn spec_protocols(&self) -> nat {
        self.protocols as nat
    }

    /// Whether the garbage-collection loop is to run.
    pub closed spec fn spec_gc(&self) -> bool {
        self.gc
    }

    /// Positions of the registrations built so far, in order.
    pub closed spec fn spec_built(&self) -> Seq<int> {
        self.built@
    }

    /// How many registrations have been built in the current phase.
    pub open spec fn built_count(&self) -> int {
        match self.spec_phase() {
            StartupPhase::Binding => 0,
            StartupPhase::Building(i) => i as int,
            StartupPhase::SpawningSupervisor
            | StartupPhase::SpawningGc
            | StartupPhase::SpawningFanout
            | StartupPhase::WaitingForAddress
            | StartupPhase::Ready => self.spec_protocols() as int,
            _ => self.spec_built().len() as int,
        }
    }

    pub open spec fn wf(&self) -> bool {
        &&& (self.spec_phase() matches StartupPhase::Building(i) ==> i < self.spec_protocols())
        &&& (self.spec_phase() is SpawningGc ==> self.spec_gc())
        &&& self.built_count() <= self.spec_protocols()
        &&& self.spec_built() == first_positions(self.built_count())
    }

    /// Startup of a node with `protocols` registrations, with the
    /// garbage-collection loop when `gc`. The first step binds the endpoint.
    pub fn new(protocols: usize, gc: bool) -> (r: (Self, StartupAction))
        ensures
            r.0.wf(),
            r.0.spec_phase() == StartupPhase::Binding,
            r.0.spec_protocols() == protocols,
            r.0.spec_gc() == gc,
            r.1 == StartupAction::BindEndpoint,
    {
        let s = Startup { phase: StartupPhase::Binding, protocols, gc, built: Ghost(Seq::empty()) };
        assert(s.spec_built() =~= first_positions(0));
        (s, StartupAction::BindEndpoint)
    }

    /// Where startup stands.
    pub fn phase(&self) -> (r: StartupPhase)
        ensures
            r == self.spec_phase(),
    {
        self.phase
    }

    /// The step after the registrations below `next` have been built.
    fn after_built(&mut self, next: usize) -> (r: StartupAction)
        requires
            next <= old(self).spec_protocols(),
            old(self).spec_built() == first_positions(next as int),
        ensures
            final(self).wf(),
            final(self).spec_protocols() == old(self).spec_protocols(),
            final(self).spec_gc() == old(self).spec_gc(),
            final(self).spec_built() == old(self).spec_built(),
            next < old(self).spec_protocols() ==> r == (StartupAction::BuildProtocol {
                index: next,
            }) && final(self).spec_phase() == StartupPhase::Building(next),
            next == old(self).spec_protocols() ==> r == StartupAction::SpawnSupervisor
                && final(self).spec_phase() == StartupPhase::SpawningSupervisor,
    {
        if next < self.protocols {
            self.phase = StartupPhase::Building(next);
            StartupAction::BuildProtocol { index: next }
        } else {
            self.phase = StartupPhase::SpawningSupervisor;
            StartupAction::SpawnSupervisor
        }
    }

    /// Takes how the last step went and returns the next one.
    pub fn step(&mut self, event: StartupEvent) -> (r: StartupAction)
        requires
            old(self).wf(),
        ensures
            final(self).wf(),
            final(self).spec_protocols() == old(self).spec_protocols(),
            final(self).spec_gc() == old(self).spec_gc(),
            in_progress(old(self).spec_phase()) && event is Failed ==> r
                == StartupAction::ShutdownStore && final(self).spec_phase()
                == StartupPhase::ShuttingStore,
            old(self).spec_phase() is ShuttingStore ==> r == StartupAction::Fail
                && final(self).spec_phase() == StartupPhase::Failed,
            (old(self).spec_phase() is Ready || old(self).spec_phase() is Failed) ==> r
                == StartupAction::Idle && *final(self) == *old(self),
            r is Ready ==> old(self).spec_phase() is WaitingForAddress && event is Succeeded,
            event is Succeeded ==> match old(self).spec_phase() {
                StartupPhase::Binding => if old(self).spec_protocols() > 0 {
                    r == (StartupAction::BuildProtocol { index: 0 }) && final(self).spec_phase()
                        == StartupPhase::Building(0)
                } else {
                    r == StartupAction::SpawnSupervisor && final(self).spec_phase()
                        == StartupPhase::SpawningSupervisor
                },
                StartupPhase::Building(i) => if i + 1 < old(self).spec_protocols() {
                    r == (StartupAction::BuildProtocol { index: (i + 1) as usize })
                        && final(self).spec_phase() == StartupPhase::Building((i + 1) as usize)
                } else {
                    r == StartupAction::SpawnSupervisor && final(self).spec_phase()
                        == StartupPhase::SpawningSupervisor
                },
                StartupPhase::SpawningSupervisor => if old(self).spec_gc() {
                    r == StartupAction::SpawnGc && final(self).spec_phase()
                        == StartupPhase::SpawningGc
                } else {
                    r == StartupAction::SpawnFanout && final(self).spec_phase()
                        == StartupPhase::SpawningFanout
                },
                StartupPhase::SpawningGc => r == StartupAction::SpawnFanout
                    && final(self).spec_phase() == StartupPhase::SpawningFanout,
                StartupPhase::SpawningFanout => r == (StartupAction::WaitForAddress {
                    secs: 5,
                }) && final(self).spec_phase() == StartupPhase::WaitingForAddress,
                StartupPhase::WaitingForAddress => r == StartupAction::Ready
                    && final(self).spec_phase() == StartupPhase::Ready,
                _ => true,
            },
    {
        match self.phase {
            StartupPhase::ShuttingStore => {
                self.phase = StartupPhase::Failed;
                return StartupAction::Fail;
            },
            StartupPhase::Ready | StartupPhase::Failed => {
                return StartupAction::Idle;
            },
            _ => {},
        }
        if let StartupEvent::Failed = event {
            self.phase = StartupPhase::ShuttingStore;
            return StartupAction::ShutdownStore;
        }
        match self.phase {
            StartupPhase::Binding => self.after_built(0),
            StartupPhase::Building(i) => {
                self.built = Ghost(self.built@.push(i as int));
                assert(self.built@ =~= first_positions(i + 1));
                self.after_built(i + 1)
            },
            StartupPhase::SpawningSupervisor => {
                if self.gc {
                    self.phase = StartupPhase::SpawningGc;
                    StartupAction::SpawnGc
                } else {
                    self.phase = StartupPhase::SpawningFanout;
                    StartupAction::SpawnFanout
                }
            },
            StartupPhase::SpawningGc => {
                self.phase = StartupPhase::SpawningFanout;
                StartupAction::SpawnFanout
            },
            StartupPhase::SpawningFanout => {
                self.phase = StartupPhase::WaitingForAddress;
                StartupAction::WaitForAddress { secs: ENDPOINT_WAIT_SECS }
            },
            _ => {
                self.phase = StartupPhase::Ready;
                StartupAction::Ready
            },
        }
    }
}

/// A node is handed out only once every registered protocol has been built,
/// each once, in order of registration.
pub proof fn lemma_ready_after_all_built(s: Startup)
    requires
        s.wf(),
        s.spec_phase() is Ready,
    ensures
        s.spec_built() == first_positions(s.spec_protocols() as int),
{
}

} // verus!
