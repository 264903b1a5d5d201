use vstd::prelude::*;

verus! {

/// A level meter: the bounds of its range, the current level and the peak.
#[derive(Debug, PartialEq, Clone, Copy)]
pub struct MeterModel<V> {
    pub min: V,
    pub max: V,
    pub value: V,
    pub peak: V,
}

impl<V: Copy> MeterModel<V> {
    /// A meter over `[min, max]` that starts with its level at the bottom and
    /// its peak at the top.
    pub fn new(min: V, max: V) -> (r: MeterModel<V>)
        ensures
            r == (MeterModel { min, max, value: min, peak: max }),
    {
        MeterModel { min, max, value: min, peak: max }
    }

    /// The same meter with a new level and peak.
    pub fn update(&self, value: V, peak: V) -> (r: MeterModel<V>)
        ensures
            r == (MeterModel { min: self.min, max: self.max, value, peak }),
    {
        MeterModel { min: self.min, max: self.max, value, peak }
    }
}

} // verus!
