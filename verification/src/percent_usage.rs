//! The shared utilization capability: every sampler turns a fresh sample into
//! an exact rational utilization value, or an explicit error where the ratio
//! would be undefined.

use vstd::prelude::*;

verus! {

/// An exact utilization value `num / den`, the fraction of a resource's
/// capacity in use.
///
/// A well-formed ratio lies in the closed interval from zero to one: the
/// denominator is positive and the numerator does not exceed it. Keeping the
/// exact rational form means derived readings carry no rounding and can never
/// be a NaN or an infinity; a consumer converts to floating point at the edge
/// if it wants to.
#[derive(Clone, Copy, Debug, PartialEq, Eq, Structural)]
pub struct Ratio {
    pub num: u128,
    pub den: u128,
}

impl Ratio {
    /// The ratio denotes a defined fraction of capacity: positive denominator
    /// and a value of at most one.
    pub open spec fn wf(self) -> bool {
        0 < self.den && self.num <= self.den
    }
}

/// Why a reading could not be produced.
#[derive(Clone, Copy, Debug, PartialEq, Eq, Structural)]
pub enum MeasureError {
    /// The statistics subsystem failed to initialize; fatal, surfaced before
    /// any sampler is constructed.
    InitFailure,
    /// A counter query failed transiently; the sampler keeps its last-known
    /// snapshot and the caller may retry on the next tick.
    QueryFailure,
    /// A denominator of the ratio (elapsed time, total capacity, processor
    /// count) was zero, so the ratio is undefined for this sample.
    DegenerateMeasurement,
}

/// The capability shared by all samplers: consume one fresh sample and return
/// the fraction of the resource in use.
///
/// A driver polls heterogeneous metric sources through this one operation
/// without knowing their concrete type. Every successful reading is a
/// well-formed [`Ratio`], so a generic driver gets the zero-to-one guarantee
/// from the trait contract alone; each implementor pins the exact value down
/// through its own `usage_ens`.
pub trait PercentUsage<S> {
    /// When the sampler accepts the sample (for the CPU sampler: the sample's
    /// timestamp must not precede the previous one).
    spec fn usage_req(&self, sample: &S) -> bool;

    /// What the reading and the updated sampler state are, exactly, per
    /// implementor. `self` is the sampler before the call, `post` after it.
    spec fn usage_ens(&self, post: &Self, sample: &S, r: Result<Ratio, MeasureError>) -> bool;

    /// Derive the fraction of the resource in use from `sample`, updating the
    /// sampler's retained state. A successful reading always lies between
    /// zero and one.
    fn percent_usage(&mut self, sample: S) -> (r: Result<Ratio, MeasureError>)
        requires
            old(self).usage_req(&sample),
        ensures
            old(self).usage_ens(final(self), &sample, r),
            (r matches Ok(q) ==> q.wf()),
    ;
}

} // verus!
