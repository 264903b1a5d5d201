use vstd::prelude::*;

verus! {

/// The coefficients of the pass filters are stored in units of this
/// fraction: a stored 14142 stands for 1.4142.
pub const COEFFICIENT_SCALE: u32 = 10_000;

/// The highest filter order that the coefficient table holds.
pub const MAX_ORDER: usize = 7;

/// The row of the Butterworth-style coefficient table for filter `order`
/// (1 to 7), in units of `COEFFICIENT_SCALE`: three `a` values, then the
/// three matching `b` values.
pub open spec fn coefficient_row(order: int) -> Seq<u32> {
    if order == 1 {
        seq![10_000u32, 0, 0, 0, 0, 0]
    } else if order == 2 {
        seq![14_142u32, 0, 0, 10_000, 0, 0]
    } else if order == 3 {
        seq![10_000u32, 10_000, 0, 0, 10_000, 0]
    } else if order == 4 {
        seq![18_478u32, 7_654, 0, 10_000, 10_000, 0]
    } else if order == 5 {
        seq![10_000u32, 16_180, 6_180, 0, 10_000, 10_000]
    } else if order == 6 {
        seq![13_617u32, 13_617, 0, 6_180, 6_180, 0]
    } else {
        seq![14_142u32, 14_142, 0, 10_000, 10_000, 0]
    }
}

/// The order of a pass filter of `slope` dB per octave: one per 6 dB.
pub open spec fn order_of(slope: usize) -> int {
    slope as int / 6
}

/// The number of second-order stages of a filter of `order`: half the order,
/// rounded up, and at most the three pairs that a row holds.
pub open spec fn stage_count(order: int) -> int {
    if (order + 1) / 2 < 3 {
        (order + 1) / 2
    } else {
        3
    }
}

fn coefficients(order: usize) -> (r: [u32; 6])
    requires
        1 <= order <= MAX_ORDER,
    ensures
        r@ == coefficient_row(order as int),
{
    let r = if order == 1 {
        [10_000, 0, 0, 0, 0, 0]
    } else if order == 2 {
        [14_142, 0, 0, 10_000, 0, 0]
    } else if order == 3 {
        [10_000, 10_000, 0, 0, 10_000, 0]
    } else if order == 4 {
        [18_478, 7_654, 0, 10_000, 10_000, 0]
    } else if order == 5 {
        [10_000, 16_180, 6_180, 0, 10_000, 10_000]
    } else if order == 6 {
        [13_617, 13_617, 0, 6_180, 6_180, 0]
    } else {
        [14_142, 14_142, 0, 10_000, 10_000, 0]
    };
    assert(r@ =~= coefficient_row(order as int));
    r
}

/// The `(a, b)` coefficient pairs of the stages of a high- or low-pass filter
/// of `slope` dB per octave, in units of `COEFFICIENT_SCALE`. The magnitude
/// response is the product over the stages of `1 + (a^2 - 2b) f1 + b^2 f2`,
/// inverted and square-rooted. A slope under 6 dB has no stage: it is flat.
pub fn pass_filter_stages(slope: usize) -> (r: Vec<(u32, u32)>)
    requires
        order_of(slope) <= MAX_ORDER,
    ensures
        r@.len() == stage_count(order_of(slope)),
        forall|k: int|
            0 <= k < r@.len() ==> #[trigger] r@[k] == (
                coefficient_row(order_of(slope))[k],
                coefficient_row(order_of(slope))[k + 3],
            ),
{
    let order = slope / 6;
    let mut out: Vec<(u32, u32)> = Vec::new();
    if order == 0 {
        return out;
    }
    let row = coefficients(order);
    let count: usize = if (order + 1) / 2 < 3 {
        (order + 1) / 2
    } else {
        3
    };
    let mut k: usize = 0;
    while k < count
        invariant
            count == stage_count(order as int),
            count <= 3,
            order == order_of(slope),
            row@ == coefficient_row(order as int),
            k <= count,
            out@.len() == k,
            forall|j: int|
                0 <= j < k ==> #[trigger] out@[j] == (
                    coefficient_row(order as int)[j],
                    coefficient_row(order as int)[j + 3],
                ),
        decreases count - k,
    {
        out.push((row[k], row[k + 3]));
        k = k + 1;
    }
    out
}

} // verus!
