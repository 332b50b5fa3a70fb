//! The garbage-collection cycle, as a state machine.
//!
//! Each cycle notifies the store, sleeps, gathers the hashes that other
//! subsystems keep alive, lets the store mark what is reachable from them,
//! and then sweeps what is not. The runtime performs each action returned by
//! [`GcCycle::step`] and reports what came of it as the next event.
use vstd::prelude::*;

use crate::alpn::bytes_eq;

verus! {

/// A content hash.
pub type BlobHash = [u8; 32];

/// The byte strings of a sequence of hashes.
pub open spec fn hash_views(v: Seq<BlobHash>) -> Seq<Seq<u8>> {
    v.map_values(|h: BlobHash| h@)
}

/// What the runtime observed.
pub enum GcEvent {
    /// The store answered the notice that collection starts.
    Started { ok: bool },
    /// The interval has elapsed.
    Woke,
    /// A subsystem keeps this hash alive.
    Live(BlobHash),
    /// Gathering the hashes that subsystems keep alive failed.
    ContributionFailed,
    /// Every subsystem has given its hashes.
    ContributionsDone,
    /// The store found this hash reachable while marking.
    Marked(BlobHash),
    /// The store reported a debug message.
    Debug,
    /// The store reported a warning.
    Warning,
    /// The store reported a fatal error in the running phase.
    Failed,
    /// The running phase's event stream ended.
    PhaseDone,
}

/// What the runtime is to do next.
#[derive(Debug, Clone, Copy, PartialEq, Eq)]
pub enum GcAction {
    /// Run the completion callback when `callback`, then notify the store
    /// that collection starts.
    StartCycle { callback: bool },
    /// Sleep for the interval.
    Sleep,
    /// Ask the subsystems that pin content for the hashes they keep alive.
    CollectLive,
    /// Let the store mark from the liveness set.
    Mark,
    /// Let the store sweep what is outside the liveness set.
    Sweep,
    /// Log a debug message.
    LogDebug,
    /// Log a warning.
    LogWarning,
    /// Leave the loop for good.
    Exit,
    /// Nothing to do.
    Idle,
}

/// Where a cycle stands.
#[derive(Debug, Clone, Copy, PartialEq, Eq)]
pub enum GcPhase {
    /// Waiting for the store to answer the start notice.
    Starting,
    /// Waiting for the interval to elapse.
    Sleeping,
    /// Gathering the hashes that subsystems keep alive.
    Collecting,
    /// The store is marking.
    Marking,
    /// The store is sweeping.
    Sweeping,
    /// The loop has ended.
    Exited,
}

/// The state of the garbage-collection loop.
pub struct GcCycle {
    phase: GcPhase,
    live: Vec<BlobHash>,
    has_contributors: bool,
    has_callback: bool,
    mark_start: Ghost<Seq<Seq<u8>>>,
}

impl GcCycle {
    pub closed spec fn spec_phase(&self) -> GcPhase {
        self.phase
    }

    /// The liveness set of the current cycle.
    pub closed spec fn spec_live(&self) -> Seq<Seq<u8>> {
        hash_views(self.live@)
    }

    /// The liveness set as it stood when marking began.
    pub closed spec fn spec_mark_start(&self) -> Seq<Seq<u8>> {
        self.mark_start@
    }

    /// Whether a subsystem contributes hashes to each cycle.
    pub closed spec fn spec_has_contributors(&self) -> bool {
        self.has_contributors
    }

    /// Whether a completion callback is registered.
    pub closed spec fn spec_has_callback(&self) -> bool {
        self.has_callback
    }

    /// Whether the sweep would remove `h`.
    pub open spec fn spec_garbage(&self, h: Seq<u8>) -> bool {
        !self.spec_live().contains(h)
    }

    /// While marking or sweeping, every hash that was live when marking
    /// began is still live.
    pub open spec fn wf(&self) -> bool {
        (self.spec_phase() is Marking || self.spec_phase() is Sweeping) ==> forall|h: Seq<u8>|
            #[trigger] self.spec_mark_start().contains(h) ==> self.spec_live().contains(h)
    }

    /// A loop about to notify the store of its first cycle.
    pub fn new(has_contributors: bool, has_callback: bool) -> (r: (Self, GcAction))
        ensures
            r.0.wf(),
            r.0.spec_phase() == GcPhase::Starting,
            r.0.spec_live().len() == 0,
            r.0.spec_has_contributors() == has_contributors,
            r.0.spec_has_callback() == has_callback,
            r.1 == (GcAction::StartCycle { callback: false }),
    {
        (
            GcCycle {
                phase: GcPhase::Starting,
                live: Vec::new(),
                has_contributors,
                has_callback,
                mark_start: Ghost(Seq::empty()),
            },
            GcAction::StartCycle { callback: false },
        )
    }

    /// Where the cycle stands.
    pub fn phase(&self) -> (r: GcPhase)
        ensures
            r == self.spec_phase(),
    {
        self.phase
    }

    /// Whether `h` is in the liveness set.
    pub fn is_live(&self, h: &BlobHash) -> (r: bool)
        ensures
            r == self.spec_live().contains(h@),
    {
        let mut i: usize = 0;
        while i < self.live.len()
            invariant
                0 <= i <= self.live@.len(),
                forall|j: int| 0 <= j < i ==> self.live@[j]@ != h@,
            decreases self.live@.len() - i,
        {
            if bytes_eq(self.live[i].as_slice(), h.as_slice()) {
                assert(self.spec_live()[i as int] == h@);
                return true;
            }
            i = i + 1;
        }
        assert(!self.spec_live().contains(h@)) by {
            assert forall|j: int| 0 <= j < self.spec_live().len() implies self.spec_live()[j]
                != h@ by {
                assert(self.live@[j]@ != h@);
            }
        }
        false
    }

    /// Whether the sweep removes `h`: exactly when it is outside the
    /// liveness set.
    pub fn is_garbage(&self, h: &BlobHash) -> (r: bool)
        requires
            self.spec_phase() is Sweeping,
        ensures
            r == self.spec_garbage(h@),
    {
        !self.is_live(h)
    }

    /// The liveness set, for the store to mark and sweep with.
    pub fn live(&self) -> (r: &Vec<BlobHash>)
        ensures
            hash_views(r@) == self.spec_live(),
    {
        &self.live
    }

    /// Adds `h` to the liveness set unless it is there already.
    fn add_live(&mut self, h: BlobHash)
        ensures
            final(self).spec_phase() == old(self).spec_phase(),
            final(self).spec_mark_start() == old(self).spec_mark_start(),
            final(self).spec_has_contributors() == old(self).spec_has_contributors(),
            final(self).spec_has_callback() == old(self).spec_has_callback(),
            forall|x: Seq<u8>|
                #[trigger] final(self).spec_live().contains(x) <==> (old(self).spec_live().contains(
                    x,
                ) || x == h@),
    {
        if !self.is_live(&h) {
            let ghost before = self.live@;
            self.live.push(h);
            assert(self.spec_live() =~= hash_views(before).push(h@));
            assert forall|x: Seq<u8>| #[trigger]
                self.spec_live().contains(x) <==> (hash_views(before).contains(x) || x == h@) by {
                if x == h@ {
                    assert(self.spec_live()[before.len() as int] == x);
                }
                if hash_views(before).contains(x) {
                    let k = choose|k: int| 0 <= k < hash_views(before).len() && hash_views(before)[k] == x;
                    assert(self.spec_live()[k] == x);
                }
            }
        }
    }

    /// Takes one event and returns the action it calls for.
    ///
    /// A refused start notice ends the loop. A failure while gathering
    /// liveness, marking or sweeping abandons the cycle without sweeping and
    /// starts the next one. Marking only adds to the liveness set, and the
    /// set is not changed while sweeping. Events that do not belong to the
    /// current phase change nothing.
    pub fn step(&mut self, event: GcEvent) -> (r: GcAction)
        requires
            old(self).wf(),
        ensures
            final(self).wf(),
            final(self).spec_has_contributors() == old(self).spec_has_contributors(),
            final(self).spec_has_callback() == old(self).spec_has_callback(),
            r is Sweep ==> old(self).spec_phase() is Marking && event is PhaseDone,
            match (old(self).spec_phase(), event) {
                (GcPhase::Starting, GcEvent::Started { ok }) => if ok {
                    r == GcAction::Sleep && final(self).spec_phase() == GcPhase::Sleeping
                } else {
                    r == GcAction::Exit && final(self).spec_phase() == GcPhase::Exited
                },
                (GcPhase::Sleeping, GcEvent::Woke) => {
                    &&& final(self).spec_live().len() == 0
                    &&& if old(self).spec_has_contributors() {
                        r == GcAction::CollectLive && final(self).spec_phase()
                            == GcPhase::Collecting
                    } else {
                        r == GcAction::Mark && final(self).spec_phase() == GcPhase::Marking
                            && final(self).spec_mark_start() == final(self).spec_live()
                    }
                },
                (GcPhase::Collecting, GcEvent::Live(h)) => r == GcAction::Idle
                    && final(self).spec_phase() == GcPhase::Collecting && forall|x: Seq<u8>|
                    #[trigger] final(self).spec_live().contains(x) <==> (
                    old(self).spec_live().contains(x) || x == h@),
                (GcPhase::Collecting, GcEvent::ContributionFailed) => r == (GcAction::StartCycle {
                    callback: false,
                }) && final(self).spec_phase() == GcPhase::Starting,
                (GcPhase::Collecting, GcEvent::ContributionsDone) => r == GcAction::Mark
                    && final(self).spec_phase() == GcPhase::Marking && final(self).spec_live()
                    == old(self).spec_live() && final(self).spec_mark_start()
                    == old(self).spec_live(),
                (GcPhase::Marking, GcEvent::Marked(h)) => r == GcAction::Idle
                    && final(self).spec_phase() == GcPhase::Marking
                    && final(self).spec_mark_start() == old(self).spec_mark_start() && forall|
                    x: Seq<u8>,
                |
                    #[trigger] final(self).spec_live().contains(x) <==> (
                    old(self).spec_live().contains(x) || x == h@),
                (GcPhase::Marking, GcEvent::PhaseDone) => r == GcAction::Sweep
                    && final(self).spec_phase() == GcPhase::Sweeping && final(self).spec_live()
                    == old(self).spec_live() && final(self).spec_mark_start()
                    == old(self).spec_mark_start(),
                (GcPhase::Marking, GcEvent::Failed) | (GcPhase::Sweeping, GcEvent::Failed) => r
                    == (GcAction::StartCycle { callback: false }) && final(self).spec_phase()
                    == GcPhase::Starting,
                (GcPhase::Sweeping, GcEvent::PhaseDone) => r == (GcAction::StartCycle {
                    callback: old(self).spec_has_callback(),
                }) && final(self).spec_phase() == GcPhase::Starting,
                (GcPhase::Marking, GcEvent::Debug) | (GcPhase::Sweeping, GcEvent::Debug) => r
                    == GcAction::LogDebug && *final(self) == *old(self),
                (GcPhase::Marking, GcEvent::Warning) | (GcPhase::Sweeping, GcEvent::Warning) => r
                    == GcAction::LogWarning && *final(self) == *old(self),
                _ => r == GcAction::Idle && *final(self) == *old(self),
            },
    {
        match self.phase {
            GcPhase::Starting => match event {
                GcEvent::Started { ok } => {
                    if ok {
                        self.phase = GcPhase::Sleeping;
                        GcAction::Sleep
                    } else {
                        self.phase = GcPhase::Exited;
                        GcAction::Exit
                    }
                },
                _ => GcAction::Idle,
            },
            GcPhase::Sleeping => match event {
                GcEvent::Woke => {
                    self.live = Vec::new();
                    assert(self.spec_live() =~= Seq::<Seq<u8>>::empty());
                    if self.has_contributors {
                        self.phase = GcPhase::Collecting;
                        GcAction::CollectLive
                    } else {
                        self.mark_start = Ghost(self.spec_live());
                        self.phase = GcPhase::Marking;
                        GcAction::Mark
                    }
                },
                _ => GcAction::Idle,
            },
            GcPhase::Collecting => match event {
                GcEvent::Live(h) => {
                    self.add_live(h);
                    GcAction::Idle
                },
                GcEvent::ContributionFailed => {
                    self.phase = GcPhase::Starting;
                    GcAction::StartCycle { callback: false }
                },
                GcEvent::ContributionsDone => {
                    self.mark_start = Ghost(self.spec_live());
                    self.phase = GcPhase::Marking;
                    GcAction::Mark
                },
                _ => GcAction::Idle,
            },
            GcPhase::Marking => match event {
                GcEvent::Marked(h) => {
                    let ghost before = self.spec_live();
                    self.add_live(h);
                    assert forall|x: Seq<u8>| #[trigger]
                        self.spec_mark_start().contains(x) implies self.spec_live().contains(x) by {
                        assert(before.contains(x));
                    }
                    GcAction::Idle
                },
                GcEvent::Debug => GcAction::LogDebug,
                GcEvent::Warning => GcAction::LogWarning,
                GcEvent::Failed => {
                    self.phase = GcPhase::Starting;
                    GcAction::StartCycle { callback: false }
                },
                GcEvent::PhaseDone => {
                    let ghost before = *self;
                    self.phase = GcPhase::Sweeping;
                    assert forall|x: Seq<u8>| #[trigger]
                        self.spec_mark_start().contains(x) implies self.spec_live().contains(x) by {
                        assert(before.spec_mark_start().contains(x));
                    }
                    GcAction::Sweep
                },
                _ => GcAction::Idle,
            },
            GcPhase::Sweeping => match event {
                GcEvent::Debug => GcAction::LogDebug,
                GcEvent::Warning => GcAction::LogWarning,
                GcEvent::Failed => {
                    self.phase = GcPhase::Starting;
                    GcAction::StartCycle { callback: false }
                },
                GcEvent::PhaseDone => {
                    self.phase = GcPhase::Starting;
                    GcAction::StartCycle { callback: self.has_callback }
                },
                _ => GcAction::Idle,
            },
            GcPhase::Exited => GcAction::Idle,
        }
    }
}

/// Within a cycle, a hash that was in the liveness set when marking began is
/// not removed by the sweep.
pub proof fn lemma_live_hash_survives_sweep(s: GcCycle, h: Seq<u8>)
    requires
        s.wf(),
        s.spec_phase() is Sweeping,
        s.spec_mark_start().contains(h),
    ensures
        !s.spec_garbage(h),
{
}

} // verus!
