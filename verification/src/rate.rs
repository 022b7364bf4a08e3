use vstd::prelude::*;

verus! {

/// A target event rate, stored canonically as a whole number of events per
/// minute.  Both constructors normalize to this one unit, so rates built per
/// minute and per second compare and compute identically downstream.
#[derive(Clone, Copy, Debug, PartialEq, Eq, Structural)]
pub struct PerX(u64);

impl PerX {
    /// The canonical per-minute count of this rate.
    pub closed spec fn per_minute(self) -> u64 {
        self.0
    }

    /// A rate of `min` events per minute.
    pub fn minute(min: u64) -> (r: PerX)
        ensures
            r.per_minute() == min,
    {
        PerX(min)
    }

    /// A rate of `sec` events per second, normalized to events per minute.
    pub fn second(sec: u64) -> (r: PerX)
        requires
            sec * 60 <= u64::MAX,
        ensures
            r.per_minute() == sec * 60,
    {
        PerX(sec * 60)
    }

    /// The canonical per-minute count, for executable callers.
    pub fn as_per_minute(&self) -> (r: u64)
        ensures
            r == self.per_minute(),
    {
        self.0
    }
}

} // verus!
