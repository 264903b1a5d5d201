use vstd::prelude::*;
use crate::band::{entry_with, update_band, EqBand, Parameter};

verus! {

/// An equalizer: its ordered band entries `(band, active)`, the bounds of
/// the gain, frequency and Q axes, and a global enable flag.
///
/// The position of an entry is its index for updates and hit-testing.
#[derive(Debug, Clone, PartialEq)]
pub struct EqModel<V> {
    pub bands: Vec<(EqBand<V>, bool)>,
    pub min_gain: V,
    pub max_gain: V,
    pub min_frequency: V,
    pub max_frequency: V,
    pub min_q: V,
    pub max_q: V,
    pub active: bool,
}

/// The band entries after an update of entry `index` by `change`: the entry is
/// replaced where the index exists and the change applies to its kind, and the
/// sequence is left as it is otherwise.
pub open spec fn bands_after<V>(bands: Seq<(EqBand<V>, bool)>, index: int, change: Parameter<V>) -> Seq<
    (EqBand<V>, bool),
> {
    if 0 <= index < bands.len() {
        match entry_with(bands[index], change) {
            Some(entry) => bands.update(index, entry),
            None => bands,
        }
    } else {
        bands
    }
}

/// The indices of the active entries, in order.
pub open spec fn active_indices<V>(bands: Seq<(EqBand<V>, bool)>) -> Seq<int>
    decreases bands.len(),
{
    if bands.len() == 0 {
        Seq::empty()
    } else {
        let rest = active_indices(bands.drop_last());
        if bands.last().1 {
            rest.push(bands.len() - 1)
        } else {
            rest
        }
    }
}

impl<V> EqModel<V> {
    pub fn new(
        bands: Vec<(EqBand<V>, bool)>,
        min_gain: V,
        max_gain: V,
        min_frequency: V,
        max_frequency: V,
        min_q: V,
        max_q: V,
        active: bool,
    ) -> (r: EqModel<V>)
        ensures
            r.bands@ == bands@,
            r.min_gain == min_gain,
            r.max_gain == max_gain,
            r.min_frequency == min_frequency,
            r.max_frequency == max_frequency,
            r.min_q == min_q,
            r.max_q == max_q,
            r.active == active,
    {
        EqModel { bands, min_gain, max_gain, min_frequency, max_frequency, min_q, max_q, active }
    }
}

impl<V: Copy> EqModel<V> {
    /// Applies `change` to the entry at `index`, in place. An index past the
    /// last entry, or a change that the band's kind does not have, leaves the
    /// model as it is.
    pub fn update(&mut self, index: usize, change: Parameter<V>)
        ensures
            final(self).bands@ == bands_after(old(self).bands@, index as int, change),
            final(self).min_gain == old(self).min_gain,
            final(self).max_gain == old(self).max_gain,
            final(self).min_frequency == old(self).min_frequency,
            final(self).max_frequency == old(self).max_frequency,
            final(self).min_q == old(self).min_q,
            final(self).max_q == old(self).max_q,
            final(self).active == old(self).active,
    {
        if index >= self.bands.len() {
            return ;
        }
        let entry = self.bands[index];
        if let Some(new_entry) = update_band(entry, change) {
            self.bands.set(index, new_entry);
        }
    }
}

impl<V: Copy> EqModel<V> {
    /// A graphic equalizer: `num` active copies of `band`, one per slider,
    /// with the given axis bounds; the model is active.
    pub fn graphic(
        num: usize,
        band: EqBand<V>,
        min_gain: V,
        max_gain: V,
        min_frequency: V,
        max_frequency: V,
        min_q: V,
        max_q: V,
    ) -> (r: EqModel<V>)
        ensures
            r.bands@ == Seq::new(num as nat, |i: int| (band, true)),
            r.min_gain == min_gain,
            r.max_gain == max_gain,
            r.min_frequency == min_frequency,
            r.max_frequency == max_frequency,
            r.min_q == min_q,
            r.max_q == max_q,
            r.active,
    {
        let mut bands: Vec<(EqBand<V>, bool)> = Vec::new();
        let mut i: usize = 0;
        while i < num
            invariant
                i <= num,
                bands@ == Seq::new(i as nat, |j: int| (band, true)),
            decreases num - i,
        {
            bands.push((band, true));
            i = i + 1;
            assert(bands@ =~= Seq::new(i as nat, |j: int| (band, true)));
        }
        EqModel { bands, min_gain, max_gain, min_frequency, max_frequency, min_q, max_q, active: true }
    }

    /// The indices of the bands that make up the summed response: the active
    /// ones, in order. Where none is active, the sum is empty.
    pub fn contributing_bands(&self) -> (r: Vec<usize>)
        ensures
            r@.map_values(|i: usize| i as int) == active_indices(self.bands@),
    {
        let mut out: Vec<usize> = Vec::new();
        let mut i: usize = 0;
        while i < self.bands.len()
            invariant
                i <= self.bands@.len(),
                out@.map_values(|k: usize| k as int) == active_indices(self.bands@.subrange(0, i as int)),
            decreases self.bands@.len() - i,
        {
            let ghost prefix = self.bands@.subrange(0, i as int + 1);
            assert(prefix.drop_last() =~= self.bands@.subrange(0, i as int));
            if self.bands[i].1 {
                out.push(i);
            }
            i = i + 1;
            assert(out@.map_values(|k: usize| k as int) =~= active_indices(prefix));
        }
        assert(self.bands@.subrange(0, self.bands@.len() as int) =~= self.bands@);
        out
    }
}

/// An update at an index past the last entry leaves the bands as they are,
/// whatever the change.
pub proof fn lemma_update_past_end_keeps_bands<V>(
    bands: Seq<(EqBand<V>, bool)>,
    index: int,
    change: Parameter<V>,
)
    requires
        index >= bands.len(),
    ensures
        bands_after(bands, index, change) == bands,
{
}

/// An update that applies replaces the one entry at its index and keeps the
/// length, the order and every other entry.
pub proof fn lemma_update_touches_one_entry<V>(
    bands: Seq<(EqBand<V>, bool)>,
    index: int,
    change: Parameter<V>,
    other: int,
)
    requires
        0 <= other < bands.len(),
        other != index,
    ensures
        bands_after(bands, index, change).len() == bands.len(),
        bands_after(bands, index, change)[other] == bands[other],
{
}

/// An index is in `active_indices` exactly when its entry exists and is
/// active, and the indices come in increasing order.
pub proof fn lemma_active_indices<V>(bands: Seq<(EqBand<V>, bool)>)
    ensures
        forall|k: int| active_indices(bands).contains(k) <==> 0 <= k < bands.len() && bands[k].1,
        forall|a: int, b: int|
            0 <= a < b < active_indices(bands).len() ==> active_indices(bands)[a]
                < active_indices(bands)[b],
    decreases bands.len(),
{
    if bands.len() > 0 {
        let rest = bands.drop_last();
        lemma_active_indices(rest);
        let n = bands.len() - 1;
        assert(rest.len() == n);
        assert forall|k: int| active_indices(bands).contains(k) <==> 0 <= k < bands.len()
            && bands[k].1 by {
            assert(active_indices(rest).contains(k) <==> 0 <= k < n && rest[k].1);
            if 0 <= k < n {
                assert(rest[k] == bands[k]);
            }
            if bands.last().1 {
                assert(active_indices(bands) == active_indices(rest).push(n));
                if active_indices(bands).contains(k) && k != n {
                    let j = choose|j: int|
                        0 <= j < active_indices(bands).len() && active_indices(bands)[j] == k;
                    assert(j < active_indices(rest).len());
                    assert(active_indices(rest)[j] == k);
                }
                if 0 <= k < n && bands[k].1 {
                    let j = choose|j: int|
                        0 <= j < active_indices(rest).len() && active_indices(rest)[j] == k;
                    assert(active_indices(bands)[j] == k);
                }
                if k == n {
                    assert(active_indices(bands)[active_indices(rest).len() as int] == k);
                }
            }
        }
        assert forall|a: int, b: int|
            0 <= a < b < active_indices(bands).len() implies active_indices(bands)[a]
                < active_indices(bands)[b] by {
            if bands.last().1 && b == active_indices(bands).len() - 1 {
                assert(active_indices(rest).contains(active_indices(rest)[a]));
            }
        }
    }
}

/// The summed response takes the active bands and no other: every band that
/// it takes is active, every active band is taken once, and an inactive band,
/// whatever its gain, is never taken.
pub proof fn lemma_sum_takes_active_bands_only<V>(model: EqModel<V>, k: int)
    requires
        0 <= k < model.bands@.len(),
    ensures
        active_indices(model.bands@).contains(k) <==> model.bands@[k].1,
        active_indices(model.bands@).no_duplicates(),
{
    lemma_active_indices(model.bands@);
    let s = active_indices(model.bands@);
    assert forall|a: int, b: int| 0 <= a < s.len() && 0 <= b < s.len() && a != b implies s[a]
        != s[b] by {
        if a < b {
        } else {
        }
    }
}

} // verus!
