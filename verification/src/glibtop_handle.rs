//! Shared lifecycle of the statistics subsystem.
//!
//! The subsystem must be initialized exactly once while at least one lease on
//! it is outstanding, and closed exactly once when the last lease goes away.
//! [`GLibTopHandle`] is the lease registry that decides those transitions: on
//! every acquisition and release it returns the [`SubsystemAction`] the caller
//! must perform. The registry itself performs no native call, so the decision
//! logic is verified for every interleaving of acquisitions and releases; the
//! caller serializes the calls (with an atomic or a lock where threads share
//! the registry) and executes the actions.
//!
//! The trace functions at the end of the module restate the registry's
//! contracts as a transition system over event sequences, and the lemmas
//! prove the lineage laws: any serialized history of acquisitions and
//! releases triggers the subsystem's initialization exactly once and its
//! teardown exactly once.

use vstd::prelude::*;

verus! {

/// Lifecycle phase of the statistics subsystem within one handle lineage.
/// Once a lineage is closed it never returns to `Initialized`; a fresh
/// registry starts a fresh lineage.
#[derive(Clone, Copy, Debug, PartialEq, Eq, Structural)]
pub enum SubsystemState {
    /// No lease has been acquired yet; the subsystem is untouched.
    Uninitialized,
    /// At least one lease is outstanding; the subsystem is open.
    Initialized,
    /// The last lease was released; the subsystem is torn down for good.
    Closed,
}

/// The native call the caller must perform right after a lease transition:
/// the registry decides, the caller executes.
#[derive(Clone, Copy, Debug, PartialEq, Eq, Structural)]
pub enum SubsystemAction {
    /// Initialize the subsystem: emitted by the first acquisition only.
    Init,
    /// No native call is due.
    Nothing,
    /// Tear the subsystem down: emitted by the last release only.
    Close,
}

/// One registry call, for stating lineage laws over call histories.
#[derive(Clone, Copy, Debug, PartialEq, Eq, Structural)]
pub enum LeaseEvent {
    /// A lease was acquired.
    Acquire,
    /// A lease was released.
    Release,
}

/// The lease registry guarding the subsystem's init/close lifecycle: one
/// logical "subsystem is open" lease per sampler that shares it.
pub struct GLibTopHandle {
    state: SubsystemState,
    leases: u64,
}

impl GLibTopHandle {
    /// The lifecycle phase of this lineage.
    pub closed spec fn lifecycle(self) -> SubsystemState {
        self.state
    }

    /// How many leases are outstanding.
    pub closed spec fn leases(self) -> u64 {
        self.leases
    }

    /// The registry's invariant: the subsystem is open exactly while leases
    /// are outstanding.
    pub open spec fn wf(self) -> bool {
        &&& (self.lifecycle() is Uninitialized ==> self.leases() == 0)
        &&& (self.lifecycle() is Initialized ==> self.leases() >= 1)
        &&& (self.lifecycle() is Closed ==> self.leases() == 0)
    }

    /// Start a fresh lineage: no lease outstanding, subsystem untouched.
    pub fn new() -> (h: GLibTopHandle)
        ensures
            h.wf(),
            h.lifecycle() is Uninitialized,
            h.leases() == 0,
    {
        GLibTopHandle { state: SubsystemState::Uninitialized, leases: 0 }
    }

    /// Start a fresh lineage already holding its only lease, for a single
    /// owner with no sharing. The returned action is always the
    /// initialization: the caller performs it immediately, and performs the
    /// teardown that [`GLibTopHandle::release_shared`] returns when this one
    /// lease goes away.
    pub fn acquire_standalone() -> (r: (GLibTopHandle, SubsystemAction))
        ensures
            r.0.wf(),
            r.0.lifecycle() is Initialized,
            r.0.leases() == 1,
            r.1 is Init,
    {
        let mut h = GLibTopHandle::new();
        let a = h.acquire_shared();
        (h, a)
    }

    /// Acquire one more shared lease. The first acquisition of the lineage
    /// returns the initialization action; every later one returns nothing
    /// besides incrementing the lease count.
    pub fn acquire_shared(&mut self) -> (a: SubsystemAction)
        requires
            old(self).wf(),
            !(old(self).lifecycle() is Closed),
            old(self).leases() < u64::MAX,
        ensures
            final(self).wf(),
            final(self).lifecycle() is Initialized,
            final(self).leases() == old(self).leases() + 1,
            a == (if old(self).lifecycle() is Uninitialized {
                SubsystemAction::Init
            } else {
                SubsystemAction::Nothing
            }),
    {
        let a = if self.leases == 0 {
            SubsystemAction::Init
        } else {
            SubsystemAction::Nothing
        };
        self.state = SubsystemState::Initialized;
        self.leases = self.leases + 1;
        a
    }

    /// Release one shared lease. Releasing the last lease of the lineage
    /// closes it and returns the teardown action; every earlier release
    /// returns nothing besides decrementing the lease count.
    pub fn release_shared(&mut self) -> (a: SubsystemAction)
        requires
            old(self).wf(),
            old(self).leases() >= 1,
        ensures
            final(self).wf(),
            final(self).leases() == old(self).leases() - 1,
            final(self).lifecycle() == (if old(self).leases() == 1 {
                SubsystemState::Closed
            } else {
                SubsystemState::Initialized
            }),
            a == (if old(self).leases() == 1 {
                SubsystemAction::Close
            } else {
                SubsystemAction::Nothing
            }),
    {
        self.leases = self.leases - 1;
        if self.leases == 0 {
            self.state = SubsystemState::Closed;
            SubsystemAction::Close
        } else {
            SubsystemAction::Nothing
        }
    }

    /// The lifecycle phase, for callers that drive the native subsystem.
    pub fn current_lifecycle(&self) -> (s: SubsystemState)
        ensures
            s == self.lifecycle(),
    {
        self.state
    }

    /// The number of outstanding leases.
    pub fn lease_count(&self) -> (n: u64)
        ensures
            n == self.leases(),
    {
        self.leases
    }
}

/// How many of the events of `t` are acquisitions.
pub open spec fn count_acquires(t: Seq<LeaseEvent>) -> int
    decreases t.len(),
{
    if t.len() == 0 {
        0
    } else {
        count_acquires(t.drop_last()) + (if t.last() is Acquire {
            1int
        } else {
            0int
        })
    }
}

/// The lease count after replaying `t` against a fresh registry, exactly as
/// the contracts of [`GLibTopHandle::acquire_shared`] and
/// [`GLibTopHandle::release_shared`] change it.
pub open spec fn run_leases(t: Seq<LeaseEvent>) -> int
    decreases t.len(),
{
    if t.len() == 0 {
        0
    } else {
        run_leases(t.drop_last()) + (if t.last() is Acquire {
            1int
        } else {
            -1int
        })
    }
}

/// The lifecycle phase after replaying `t` against a fresh registry, exactly
/// as the contracts of the two lease calls change it.
pub open spec fn run_lifecycle(t: Seq<LeaseEvent>) -> SubsystemState
    decreases t.len(),
{
    if t.len() == 0 {
        SubsystemState::Uninitialized
    } else if t.last() is Acquire {
        SubsystemState::Initialized
    } else if run_leases(t) == 0 {
        SubsystemState::Closed
    } else {
        SubsystemState::Initialized
    }
}

/// Whether `t` is a history the registry's contracts admit: an acquisition
/// never lands on a closed lineage, and a release never lacks an outstanding
/// lease. Any serialization of concurrent acquire/release calls that meet
/// their preconditions is such a history.
pub open spec fn valid_trace(t: Seq<LeaseEvent>) -> bool
    decreases t.len(),
{
    if t.len() == 0 {
        true
    } else {
        valid_trace(t.drop_last()) && (if t.last() is Acquire {
            !(run_lifecycle(t.drop_last()) is Closed)
        } else {
            run_leases(t.drop_last()) >= 1
        })
    }
}

/// How many initialization actions replaying `t` emits, exactly as the
/// contract of [`GLibTopHandle::acquire_shared`] returns them.
pub open spec fn run_inits(t: Seq<LeaseEvent>) -> int
    decreases t.len(),
{
    if t.len() == 0 {
        0
    } else {
        run_inits(t.drop_last()) + (if t.last() is Acquire && run_lifecycle(t.drop_last())
            is Uninitialized {
            1int
        } else {
            0int
        })
    }
}

/// How many teardown actions replaying `t` emits, exactly as the contract of
/// [`GLibTopHandle::release_shared`] returns them.
pub open spec fn run_closes(t: Seq<LeaseEvent>) -> int
    decreases t.len(),
{
    if t.len() == 0 {
        0
    } else {
        run_closes(t.drop_last()) + (if t.last() is Release && run_leases(t.drop_last()) == 1 {
            1int
        } else {
            0int
        })
    }
}

/// What every valid lease history maintains: the lease count never goes
/// negative, the lineage is uninitialized exactly until the first
/// acquisition and closed exactly when acquisitions happened and all leases
/// are gone, the initialization was emitted exactly once as soon as anything
/// was acquired, and the teardown exactly once as soon as the lineage
/// closed.
pub proof fn lemma_lifecycle_invariant(t: Seq<LeaseEvent>)
    requires
        valid_trace(t),
    ensures
        run_leases(t) >= 0,
        count_acquires(t) >= run_leases(t),
        run_lifecycle(t) is Uninitialized <==> count_acquires(t) == 0,
        run_lifecycle(t) is Initialized <==> run_leases(t) >= 1,
        run_lifecycle(t) is Closed <==> (count_acquires(t) >= 1 && run_leases(t) == 0),
        run_inits(t) == (if count_acquires(t) >= 1 {
            1int
        } else {
            0int
        }),
        run_closes(t) == (if run_lifecycle(t) is Closed {
            1int
        } else {
            0int
        }),
    decreases t.len(),
{
    if t.len() > 0 {
        lemma_lifecycle_invariant(t.drop_last());
    }
}

/// Exactly-once lifecycle law: over any valid serialized history of shared
/// acquisitions and releases in which at least one lease was acquired and
/// all leases were released again — however many clients interleaved,
/// however their calls were ordered — the subsystem's initialization is
/// emitted exactly once and its teardown exactly once.
pub proof fn lemma_init_close_exactly_once(t: Seq<LeaseEvent>)
    requires
        valid_trace(t),
        count_acquires(t) >= 1,
        run_leases(t) == 0,
    ensures
        run_inits(t) == 1,
        run_closes(t) == 1,
{
    lemma_lifecycle_invariant(t);
}

/// Round-trip law: acquiring a further lease on a lineage that has already
/// seen an acquisition — as constructing a sampler over an existing handle
/// does — emits no second initialization. Deriving a reading afterwards
/// touches no lease at all, so the whole round trip triggers exactly the
/// initializations the history before it had.
pub proof fn lemma_no_second_init(t: Seq<LeaseEvent>)
    requires
        valid_trace(t.push(LeaseEvent::Acquire)),
        count_acquires(t) >= 1,
    ensures
        run_inits(t.push(LeaseEvent::Acquire)) == run_inits(t),
{
    assert(t.push(LeaseEvent::Acquire).drop_last() =~= t);
    lemma_lifecycle_invariant(t);
}

} // verus!
