//! Memory sampling: an instantaneous gauge, no delta state. The sampler
//! retains the most recent snapshot and derives `used / total` from it.

use vstd::prelude::*;

use crate::glibtop_handle::GLibTopHandle;
use crate::glibtop_handle::SubsystemAction;
use crate::percent_usage::MeasureError;
use crate::percent_usage::PercentUsage;
use crate::percent_usage::Ratio;

verus! {

/// A point-in-time copy of the memory counters reported by the statistics
/// subsystem: unsigned 64-bit byte counts. A consistent snapshot has
/// `used <= total`, but that depends on the subsystem and is not assumed
/// here: the derived ratio clamps instead.
#[derive(Clone, Copy, Debug, PartialEq, Eq, Structural)]
pub struct MemorySnapshot {
    pub flags: u64,
    pub total: u64,
    pub used: u64,
    pub free: u64,
    pub shared: u64,
    pub buffer: u64,
    pub cached: u64,
    pub user: u64,
    pub locked: u64,
}

/// The memory utilization for one snapshot: `used / total`, clamped to one
/// where the snapshot is inconsistent, and a degenerate-measurement error
/// where `total` is zero (the ratio would be undefined).
pub open spec fn spec_memory_utilization(used: u64, total: u64) -> Result<
    Ratio,
    MeasureError,
> {
    if total == 0 {
        Err(MeasureError::DegenerateMeasurement)
    } else if used <= total {
        Ok(Ratio { num: used as u128, den: total as u128 })
    } else {
        Ok(Ratio { num: total as u128, den: total as u128 })
    }
}

/// Compute the memory utilization ratio from raw counters.
///
/// Succeeds on exactly the inputs with `total > 0`; a zero total yields the
/// degenerate-measurement error rather than an undefined value.
pub fn memory_utilization(used: u64, total: u64) -> (r: Result<Ratio, MeasureError>)
    ensures
        r == spec_memory_utilization(used, total),
        r matches Ok(q) ==> q.wf(),
        r is Ok <==> total > 0,
{
    if total == 0 {
        Err(MeasureError::DegenerateMeasurement)
    } else if used <= total {
        Ok(Ratio { num: used as u128, den: total as u128 })
    } else {
        Ok(Ratio { num: total as u128, den: total as u128 })
    }
}

/// A memory sampler: exclusively owns the most recent [`MemorySnapshot`].
/// Mutated only by [`Memory::measure`]; the accessors reflect the last
/// measurement, not live state.
pub struct Memory {
    snap: MemorySnapshot,
}

impl Memory {
    /// The snapshot retained by the last measurement.
    pub closed spec fn snapshot(self) -> MemorySnapshot {
        self.snap
    }

    /// Is this kind of device present on this host? Memory always is.
    pub fn is_available() -> (b: bool)
        ensures
            b,
    {
        true
    }

    /// Construct a sampler from an initial measurement, for standalone use:
    /// the caller owns the subsystem lifecycle (initialize it before querying
    /// `initial`, close it when the sampler is discarded).
    pub fn new(initial: MemorySnapshot) -> (m: Memory)
        ensures
            m.snapshot() == initial,
    {
        Memory { snap: initial }
    }

    /// Construct a sampler that shares the subsystem's lifecycle through
    /// `handle`: one lease is acquired, and the returned action — the
    /// initialization on the lineage's first acquisition, nothing afterwards
    /// — must be performed by the caller. Where the caller opened the
    /// lineage beforehand (the usual pattern), the action is nothing and
    /// `initial` is simply the first measurement.
    pub fn with_handle(handle: &mut GLibTopHandle, initial: MemorySnapshot) -> (r: (
        Memory,
        SubsystemAction,
    ))
        requires
            old(handle).wf(),
            !(old(handle).lifecycle() is Closed),
            old(handle).leases() < u64::MAX,
        ensures
            final(handle).wf(),
            final(handle).lifecycle() is Initialized,
            final(handle).leases() == old(handle).leases() + 1,
            r.1 == (if old(handle).lifecycle() is Uninitialized {
                SubsystemAction::Init
            } else {
                SubsystemAction::Nothing
            }),
            r.0.snapshot() == initial,
    {
        let a = handle.acquire_shared();
        (Memory { snap: initial }, a)
    }

    /// Discard the sampler and release the lease its construction acquired,
    /// returning the teardown action where this lease was the lineage's
    /// last.
    pub fn release_handle(self, handle: &mut GLibTopHandle) -> (a: SubsystemAction)
        requires
            old(handle).wf(),
            old(handle).leases() >= 1,
        ensures
            final(handle).wf(),
            final(handle).leases() == old(handle).leases() - 1,
            a == (if old(handle).leases() == 1 {
                SubsystemAction::Close
            } else {
                SubsystemAction::Nothing
            }),
    {
        handle.release_shared()
    }

    /// Overwrite the retained snapshot with a fresh query result. Memory is
    /// an instantaneous gauge, so no delta state is kept.
    pub fn measure(&mut self, fresh: MemorySnapshot)
        ensures
            final(self).snapshot() == fresh,
    {
        self.snap = fresh;
    }

    /// The `flags` counter from the last measurement.
    pub fn flags(&self) -> (r: u64)
        ensures
            r == self.snapshot().flags,
    {
        self.snap.flags
    }

    /// The total memory from the last measurement.
    pub fn total(&self) -> (r: u64)
        ensures
            r == self.snapshot().total,
    {
        self.snap.total
    }

    /// The used memory from the last measurement.
    pub fn used(&self) -> (r: u64)
        ensures
            r == self.snapshot().used,
    {
        self.snap.used
    }

    /// The free memory from the last measurement.
    pub fn free(&self) -> (r: u64)
        ensures
            r == self.snapshot().free,
    {
        self.snap.free
    }

    /// The shared memory from the last measurement.
    pub fn shared(&self) -> (r: u64)
        ensures
            r == self.snapshot().shared,
    {
        self.snap.shared
    }

    /// The buffer memory from the last measurement.
    pub fn buffer(&self) -> (r: u64)
        ensures
            r == self.snapshot().buffer,
    {
        self.snap.buffer
    }

    /// The cached memory from the last measurement.
    pub fn cached(&self) -> (r: u64)
        ensures
            r == self.snapshot().cached,
    {
        self.snap.cached
    }

    /// The user-space memory from the last measurement.
    pub fn user(&self) -> (r: u64)
        ensures
            r == self.snapshot().user,
    {
        self.snap.user
    }

    /// The locked memory from the last measurement.
    pub fn locked(&self) -> (r: u64)
        ensures
            r == self.snapshot().locked,
    {
        self.snap.locked
    }
}

impl PercentUsage<MemorySnapshot> for Memory {
    /// A memory sample is always acceptable: the gauge keeps no ordering
    /// state.
    open spec fn usage_req(&self, sample: &MemorySnapshot) -> bool {
        true
    }

    /// The sampler retains the sample, and the reading is exactly
    /// `used / total` of that sample (clamped, or degenerate on zero total).
    open spec fn usage_ens(
        &self,
        post: &Memory,
        sample: &MemorySnapshot,
        r: Result<Ratio, MeasureError>,
    ) -> bool {
        &&& post.snapshot() == *sample
        &&& r == spec_memory_utilization(sample.used, sample.total)
    }

    /// Take a fresh snapshot and return the fraction of memory in use.
    fn percent_usage(&mut self, sample: MemorySnapshot) -> (r: Result<Ratio, MeasureError>) {
        self.measure(sample);
        memory_utilization(self.used(), self.total())
    }
}

} // verus!
