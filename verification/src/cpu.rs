//! CPU sampling: delta computation from monotonic jiffy counters sampled at
//! irregular intervals, and the normalized utilization ratio derived from one
//! delta.

use vstd::prelude::*;

use crate::glibtop_handle::GLibTopHandle;
use crate::glibtop_handle::SubsystemAction;
use crate::percent_usage::MeasureError;
use crate::percent_usage::PercentUsage;
use crate::percent_usage::Ratio;

verus! {

/// Nanoseconds per second: the unit in which the samplers carry wall-clock
/// timestamps.
pub const NANOS_PER_SEC: u64 = 1_000_000_000;

/// A point-in-time copy of the CPU counters reported by the statistics
/// subsystem. All fields but `frequency` and `flags` are monotonic jiffy
/// counters that only ever grow between successive queries (barring counter
/// wraparound); they are treated as opaque values, with no relation among
/// them assumed.
#[derive(Clone, Copy, Debug, PartialEq, Eq, Structural)]
pub struct CpuSnapshot {
    pub total: u64,
    pub user: u64,
    pub nice: u64,
    pub sys: u64,
    pub idle: u64,
    pub iowait: u64,
    pub irq: u64,
    pub frequency: u64,
    pub flags: u64,
}

/// The busy jiffies of one snapshot: `total - idle`, and zero where a skewed
/// snapshot reports more idle than total time (nothing relates the counters).
pub open spec fn spec_busy(s: CpuSnapshot) -> int {
    if s.idle <= s.total {
        s.total - s.idle
    } else {
        0
    }
}

/// The busy jiffies spent between two successive snapshots: the growth of
/// the busy counter, and zero where the counters did not advance (or moved
/// backwards, as after a wraparound).
pub open spec fn spec_delta_busy(prev: CpuSnapshot, cur: CpuSnapshot) -> int {
    if spec_busy(prev) <= spec_busy(cur) {
        spec_busy(cur) - spec_busy(prev)
    } else {
        0
    }
}

/// The CPU utilization for one sampling interval:
/// `delta_busy / (100 * cpu_count * elapsed_seconds)`, written as the exact
/// rational `(delta_busy * NANOS_PER_SEC) / (100 * cpu_count * elapsed_ns)`,
/// clamped to one, and a degenerate-measurement error where elapsed time or
/// processor count is zero (the ratio would be undefined).
pub open spec fn spec_cpu_utilization(delta_busy: u64, elapsed_ns: u64, cpu_count: u32) -> Result<
    Ratio,
    MeasureError,
> {
    let num = delta_busy * NANOS_PER_SEC;
    let den = 100 * cpu_count * elapsed_ns;
    if elapsed_ns == 0 || cpu_count == 0 {
        Err(MeasureError::DegenerateMeasurement)
    } else if num <= den {
        Ok(Ratio { num: num as u128, den: den as u128 })
    } else {
        Ok(Ratio { num: den as u128, den: den as u128 })
    }
}

/// Compute the CPU utilization ratio for one sampling interval from the busy
/// delta, the elapsed wall-clock time in nanoseconds and the logical
/// processor count.
///
/// Succeeds on exactly the inputs with `elapsed_ns > 0` and `cpu_count > 0`;
/// a zero elapsed time (two measurements within one clock tick) or a zero
/// processor count yields the degenerate-measurement error rather than an
/// undefined value.
pub fn cpu_utilization(delta_busy: u64, elapsed_ns: u64, cpu_count: u32) -> (r: Result<
    Ratio,
    MeasureError,
>)
    ensures
        r == spec_cpu_utilization(delta_busy, elapsed_ns, cpu_count),
        r matches Ok(q) ==> q.wf(),
        r is Ok <==> (elapsed_ns > 0 && cpu_count > 0),
{
    if elapsed_ns == 0 || cpu_count == 0 {
        return Err(MeasureError::DegenerateMeasurement);
    }
    proof {
        assert((delta_busy as int) * (NANOS_PER_SEC as int) <= 0xffff_ffff_ffff_ffff
            * 1_000_000_000) by (nonlinear_arith)
            requires
                delta_busy <= 0xffff_ffff_ffff_ffff,
                NANOS_PER_SEC == 1_000_000_000,
        ;
        assert(100 * (cpu_count as int) * (elapsed_ns as int) <= 100 * 0xffff_ffff
            * 0xffff_ffff_ffff_ffff) by (nonlinear_arith)
            requires
                cpu_count <= 0xffff_ffff,
                elapsed_ns <= 0xffff_ffff_ffff_ffff,
        ;
        assert(100 * (cpu_count as int) * (elapsed_ns as int) >= 100) by (nonlinear_arith)
            requires
                cpu_count >= 1,
                elapsed_ns >= 1,
        ;
    }
    let num: u128 = (delta_busy as u128) * (NANOS_PER_SEC as u128);
    let den: u128 = 100 * (cpu_count as u128) * (elapsed_ns as u128);
    if num <= den {
        Ok(Ratio { num, den })
    } else {
        Ok(Ratio { num: den, den })
    }
}

/// A CPU sampler: exclusively owns the most recent [`CpuSnapshot`], the
/// wall-clock timestamp of that measurement, and the host's logical
/// processor count. Mutated only by [`Cpu::measure`]; the accessors reflect
/// the last measurement, not live state. Measurements on one sampler must
/// come in non-decreasing wall-clock order (the caller's responsibility;
/// samplers are not internally thread-safe).
pub struct Cpu {
    snap: CpuSnapshot,
    last_ns: u64,
    cpus: u32,
}

impl Cpu {
    /// The snapshot retained by the last measurement.
    pub closed spec fn snapshot(self) -> CpuSnapshot {
        self.snap
    }

    /// The wall-clock timestamp (nanoseconds) of the last measurement.
    pub closed spec fn last_time_ns(self) -> u64 {
        self.last_ns
    }

    /// The logical processor count the sampler was constructed with.
    pub closed spec fn cpu_count(self) -> u32 {
        self.cpus
    }

    /// Is this kind of device present on this host? A CPU always is.
    pub fn is_available() -> (b: bool)
        ensures
            b,
    {
        true
    }

    /// Construct a sampler from an initial measurement, for standalone use:
    /// the caller owns the subsystem lifecycle (initialize it before querying
    /// `initial`, close it when the sampler is discarded). The initial
    /// snapshot is the baseline, so the first delta is well-defined.
    ///
    /// `cpu_count` is the host's logical processor count, queried at runtime
    /// by the caller; it is not a compile-time constant.
    pub fn new(initial: CpuSnapshot, now_ns: u64, cpu_count: u32) -> (c: Cpu)
        ensures
            c.snapshot() == initial,
            c.last_time_ns() == now_ns,
            c.cpu_count() == cpu_count,
    {
        Cpu { snap: initial, last_ns: now_ns, cpus: cpu_count }
    }

    /// Construct a sampler that shares the subsystem's lifecycle through
    /// `handle`: one lease is acquired, and the returned action — the
    /// initialization on the lineage's first acquisition, nothing afterwards
    /// — must be performed by the caller. Where the caller opened the
    /// lineage beforehand (the usual pattern), the action is nothing and
    /// `initial` is simply the baseline measurement, so the first delta is
    /// well-defined.
    ///
    /// `cpu_count` is the host's logical processor count, queried at runtime
    /// by the caller; it is not a compile-time constant.
    pub fn with_handle(
        handle: &mut GLibTopHandle,
        initial: CpuSnapshot,
        now_ns: u64,
        cpu_count: u32,
    ) -> (r: (Cpu, SubsystemAction))
        requires
            old(handle).wf(),
            !(old(handle).lifecycle() is Closed),
            old(handle).leases() < u64::MAX,
        ensures
            final(handle).wf(),
            final(handle).lifecycle() is Initialized,
            final(handle).leases() == old(handle).leases() + 1,
            r.1 == (if old(handle).lifecycle() is Uninitialized {
                SubsystemAction::Init
            } else {
                SubsystemAction::Nothing
            }),
            r.0.snapshot() == initial,
            r.0.last_time_ns() == now_ns,
            r.0.cpu_count() == cpu_count,
    {
        let a = handle.acquire_shared();
        (Cpu { snap: initial, last_ns: now_ns, cpus: cpu_count }, a)
    }

    /// Discard the sampler and release the lease its construction acquired,
    /// returning the teardown action where this lease was the lineage's
    /// last.
    pub fn release_handle(self, handle: &mut GLibTopHandle) -> (a: SubsystemAction)
        requires
            old(handle).wf(),
            old(handle).leases() >= 1,
        ensures
            final(handle).wf(),
            final(handle).leases() == old(handle).leases() - 1,
            a == (if old(handle).leases() == 1 {
                SubsystemAction::Close
            } else {
                SubsystemAction::Nothing
            }),
    {
        handle.release_shared()
    }

    /// Advance to a fresh snapshot taken at wall-clock time `now_ns` and
    /// return `(delta_busy, elapsed_ns)`: the busy jiffies spent and the
    /// wall-clock nanoseconds passed since the previous measurement. If the
    /// counters did not advance between the calls the delta is zero.
    pub fn measure(&mut self, fresh: CpuSnapshot, now_ns: u64) -> (r: (u64, u64))
        requires
            now_ns >= old(self).last_time_ns(),
        ensures
            final(self).snapshot() == fresh,
            final(self).last_time_ns() == now_ns,
            final(self).cpu_count() == old(self).cpu_count(),
            r.0 == spec_delta_busy(old(self).snapshot(), fresh),
            r.1 == now_ns - old(self).last_time_ns(),
    {
        let busy_prev: u64 = self.busy();
        self.snap = fresh;
        let busy_now: u64 = self.busy();
        let delta: u64 = if busy_prev <= busy_now {
            busy_now - busy_prev
        } else {
            0
        };
        let elapsed: u64 = now_ns - self.last_ns;
        self.last_ns = now_ns;
        (delta, elapsed)
    }

    /// The busy jiffies of the retained snapshot.
    fn busy(&self) -> (b: u64)
        ensures
            b == spec_busy(self.snapshot()),
    {
        if self.snap.idle <= self.snap.total {
            self.snap.total - self.snap.idle
        } else {
            0
        }
    }

    /// The total jiffy counter from the last measurement.
    pub fn total(&self) -> (r: u64)
        ensures
            r == self.snapshot().total,
    {
        self.snap.total
    }

    /// The `flags` counter from the last measurement.
    pub fn flags(&self) -> (r: u64)
        ensures
            r == self.snapshot().flags,
    {
        self.snap.flags
    }

    /// The user-mode jiffy counter from the last measurement.
    pub fn user(&self) -> (r: u64)
        ensures
            r == self.snapshot().user,
    {
        self.snap.user
    }

    /// The nice-mode jiffy counter from the last measurement.
    pub fn nice(&self) -> (r: u64)
        ensures
            r == self.snapshot().nice,
    {
        self.snap.nice
    }

    /// The system-mode jiffy counter from the last measurement.
    pub fn sys(&self) -> (r: u64)
        ensures
            r == self.snapshot().sys,
    {
        self.snap.sys
    }

    /// The idle jiffy counter from the last measurement.
    pub fn idle(&self) -> (r: u64)
        ensures
            r == self.snapshot().idle,
    {
        self.snap.idle
    }

    /// The I/O-wait jiffy counter from the last measurement.
    pub fn iowait(&self) -> (r: u64)
        ensures
            r == self.snapshot().iowait,
    {
        self.snap.iowait
    }

    /// The interrupt jiffy counter from the last measurement.
    pub fn irq(&self) -> (r: u64)
        ensures
            r == self.snapshot().irq,
    {
        self.snap.irq
    }

    /// The processor frequency from the last measurement.
    pub fn frequency(&self) -> (r: u64)
        ensures
            r == self.snapshot().frequency,
    {
        self.snap.frequency
    }
}

/// Between snapshots whose total and idle counters both advanced
/// monotonically and consistently (idle within total, busy not shrinking),
/// the measured busy delta is exactly
/// `(total' - idle') - (total - idle)`, and never negative.
pub proof fn lemma_delta_busy_monotone(prev: CpuSnapshot, cur: CpuSnapshot)
    requires
        prev.idle <= prev.total,
        cur.idle <= cur.total,
        prev.total <= cur.total,
        prev.idle <= cur.idle,
        prev.total - prev.idle <= cur.total - cur.idle,
    ensures
        spec_delta_busy(prev, cur) == (cur.total - cur.idle) - (prev.total - prev.idle),
        spec_delta_busy(prev, cur) >= 0,
{
}

impl PercentUsage<(CpuSnapshot, u64)> for Cpu {
    /// A CPU sample carries its wall-clock timestamp, which must not precede
    /// the previous measurement's.
    open spec fn usage_req(&self, sample: &(CpuSnapshot, u64)) -> bool {
        sample.1 >= self.last_time_ns()
    }

    /// The sampler retains the sample as the new baseline, and the reading
    /// is exactly the utilization of the interval it closes.
    open spec fn usage_ens(
        &self,
        post: &Cpu,
        sample: &(CpuSnapshot, u64),
        r: Result<Ratio, MeasureError>,
    ) -> bool {
        &&& post.snapshot() == sample.0
        &&& post.last_time_ns() == sample.1
        &&& post.cpu_count() == self.cpu_count()
        &&& r == spec_cpu_utilization(
            spec_delta_busy(self.snapshot(), sample.0) as u64,
            (sample.1 - self.last_time_ns()) as u64,
            self.cpu_count(),
        )
    }

    /// Take a fresh snapshot at its wall-clock time and return the fraction
    /// of CPU capacity used over the closed interval.
    fn percent_usage(&mut self, sample: (CpuSnapshot, u64)) -> (r: Result<Ratio, MeasureError>) {
        let (fresh, now_ns) = sample;
        let m: (u64, u64) = self.measure(fresh, now_ns);
        cpu_utilization(m.0, m.1, self.cpus)
    }
}

} // verus!
