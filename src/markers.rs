use vstd::prelude::*;

verus! {

/// Whether marker `m` lies within `[min, max]` (`incl`) or `(min, max)`.
pub open spec fn within(m: i64, min: i64, max: i64, incl: bool) -> bool {
    if incl {
        min <= m && m <= max
    } else {
        min < m && m < max
    }
}

pub open spec fn major_gain_marker_values() -> Seq<i64> {
    seq![-18i64, -12i64, -6i64, 0, 6, 12, 18]
}

pub open spec fn minor_gain_marker_values() -> Seq<i64> {
    seq![-21i64, -15i64, -9i64, -3i64, 3, 9, 15, 21]
}

pub open spec fn major_frequency_marker_values() -> Seq<i64> {
    seq![10i64, 100, 1_000, 10_000]
}

/// The multiples 1 to 9 of the decades from 1 Hz to 10 kHz, but for the
/// decades themselves from 10 Hz up.
pub open spec fn minor_frequency_marker_values() -> Seq<i64> {
    seq![
        1i64, 2, 3, 4, 5, 6, 7, 8, 9,
        20, 30, 40, 50, 60, 70, 80, 90,
        200, 300, 400, 500, 600, 700, 800, 900,
        2_000, 3_000, 4_000, 5_000, 6_000, 7_000, 8_000, 9_000,
        20_000, 30_000, 40_000, 50_000, 60_000, 70_000, 80_000, 90_000,
    ]
}

/// Gain markers in dB: every 6 dB for major lines.
pub fn major_gain_markers() -> (r: Vec<i64>)
    ensures
        r@ == major_gain_marker_values(),
{
    let r = vec![-18, -12, -6, 0, 6, 12, 18];
    assert(r@ =~= major_gain_marker_values());
    r
}

/// Gain markers in dB: halfway between the major ones.
pub fn minor_gain_markers() -> (r: Vec<i64>)
    ensures
        r@ == minor_gain_marker_values(),
{
    let r = vec![-21, -15, -9, -3, 3, 9, 15, 21];
    assert(r@ =~= minor_gain_marker_values());
    r
}

/// Frequency markers in Hz: the decades.
pub fn major_frequency_markers() -> (r: Vec<i64>)
    ensures
        r@ == major_frequency_marker_values(),
{
    let r = vec![10, 100, 1_000, 10_000];
    assert(r@ =~= major_frequency_marker_values());
    r
}

/// Frequency markers in Hz: the multiples between the decades.
pub fn minor_frequency_markers() -> (r: Vec<i64>)
    ensures
        r@ == minor_frequency_marker_values(),
{
    let r = vec![
        1, 2, 3, 4, 5, 6, 7, 8, 9,
        20, 30, 40, 50, 60, 70, 80, 90,
        200, 300, 400, 500, 600, 700, 800, 900,
        2_000, 3_000, 4_000, 5_000, 6_000, 7_000, 8_000, 9_000,
        20_000, 30_000, 40_000, 50_000, 60_000, 70_000, 80_000, 90_000,
    ];
    assert(r@ =~= minor_frequency_marker_values());
    r
}

/// The markers that lie within the bounds, in their order.
pub fn filter(markers: &Vec<i64>, min: i64, max: i64, incl: bool) -> (r: Vec<i64>)
    ensures
        r@ == markers@.filter(|m: i64| within(m, min, max, incl)),
{
    let ghost pred = |m: i64| within(m, min, max, incl);
    let mut out: Vec<i64> = Vec::new();
    let mut i: usize = 0;
    while i < markers.len()
        invariant
            i <= markers@.len(),
            pred == (|m: i64| within(m, min, max, incl)),
            out@ == markers@.subrange(0, i as int).filter(pred),
        decreases markers@.len() - i,
    {
        let m = markers[i];
        let ghost prefix = markers@.subrange(0, i as int + 1);
        assert(prefix.drop_last() =~= markers@.subrange(0, i as int));
        let keep = if incl {
            min <= m && m <= max
        } else {
            min < m && m < max
        };
        if keep {
            out.push(m);
        }
        i = i + 1;
        proof {
            reveal(Seq::filter);
            assert(prefix.last() == m);
            assert(keep == pred(m));
            assert(prefix.len() > 0);
            if keep {
                assert(prefix.filter(pred) == prefix.drop_last().filter(pred).push(m));
            } else {
                assert(prefix.filter(pred) == prefix.drop_last().filter(pred));
            }
        }
    }
    assert(markers@.subrange(0, markers@.len() as int) =~= markers@);
    out
}

/// The major and minor gain markers within the bounds.
pub fn gain_markers(min: i64, max: i64, incl: bool) -> (r: (Vec<i64>, Vec<i64>))
    ensures
        r.0@ == major_gain_marker_values().filter(|m: i64| within(m, min, max, incl)),
        r.1@ == minor_gain_marker_values().filter(|m: i64| within(m, min, max, incl)),
{
    let major = filter(&major_gain_markers(), min, max, incl);
    let minor = filter(&minor_gain_markers(), min, max, incl);
    (major, minor)
}

/// The major and minor frequency markers within the bounds.
pub fn frequency_markers(min: i64, max: i64, incl: bool) -> (r: (Vec<i64>, Vec<i64>))
    ensures
        r.0@ == major_frequency_marker_values().filter(|m: i64| within(m, min, max, incl)),
        r.1@ == minor_frequency_marker_values().filter(|m: i64| within(m, min, max, incl)),
{
    let major = filter(&major_frequency_markers(), min, max, incl);
    let minor = filter(&minor_frequency_markers(), min, max, incl);
    (major, minor)
}

} // verus!
