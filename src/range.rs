//! Indexed access into tensor buffers and the value range that a non-linear
//! lookup table must cover.
//!
//! Fixed-point numbers are held by their raw `i64` representation; the margin
//! arithmetic below does not depend on the position of the binary point.
use vstd::prelude::*;

verus! {

/// A closed interval `[low, high]` of raw fixed-point values.
#[derive(Debug, Clone, Copy, PartialEq, Eq)]
pub struct Range(pub i64, pub i64);

/// The buffer value at a logical position, from what the position's index and
/// validity expressions evaluate to there: the element at `index` when `validity`
/// is non-zero, else the fixed-point zero (an implicit broadcast or padding value).
pub fn get_index(data: &Vec<i64>, validity: usize, index: usize) -> (r: i64)
    requires
        validity != 0 ==> index < data@.len(),
    ensures
        r == if validity != 0 {
            data@[index as int]
        } else {
            0
        },
{
    if validity != 0 {
        data[index]
    } else {
        0
    }
}

/// The smallest and the largest raw value of a buffer, `None` for an empty one.
pub fn buffer_min_max(data: &Vec<i64>) -> (r: Option<Range>)
    ensures
        r is None <==> data@.len() == 0,
        r matches Some(range) ==> {
            &&& forall|i: int| 0 <= i < data@.len() ==> range.0 <= #[trigger] data@[i] <= range.1
            &&& exists|i: int| 0 <= i < data@.len() && data@[i] == range.0
            &&& exists|i: int| 0 <= i < data@.len() && data@[i] == range.1
        },
{
    if data.len() == 0 {
        return None;
    }
    let mut lo: i64 = data[0];
    let mut hi: i64 = data[0];
    let mut lo_at: Ghost<int> = Ghost(0);
    let mut hi_at: Ghost<int> = Ghost(0);
    let mut i: usize = 1;
    while i < data.len()
        invariant
            1 <= i <= data@.len(),
            forall|j: int| 0 <= j < i ==> lo <= #[trigger] data@[j] <= hi,
            0 <= lo_at@ < data@.len() && data@[lo_at@] == lo,
            0 <= hi_at@ < data@.len() && data@[hi_at@] == hi,
        decreases data@.len() - i,
    {
        if data[i] < lo {
            lo = data[i];
            lo_at = Ghost(i as int);
        }
        if data[i] > hi {
            hi = data[i];
            hi_at = Ghost(i as int);
        }
        i = i + 1;
    }
    Some(Range(lo, hi))
}

/// The smallest low end among the present ranges, `i64::MAX` where there is none.
pub open spec fn merged_low(srcs: Seq<Option<Range>>) -> i64
    decreases srcs.len(),
{
    if srcs.len() == 0 {
        i64::MAX
    } else {
        let prev = merged_low(srcs.drop_last());
        match srcs.last() {
            Some(r) => if r.0 < prev {
                r.0
            } else {
                prev
            },
            None => prev,
        }
    }
}

/// The largest high end among the present ranges, `i64::MIN` where there is none.
pub open spec fn merged_high(srcs: Seq<Option<Range>>) -> i64
    decreases srcs.len(),
{
    if srcs.len() == 0 {
        i64::MIN
    } else {
        let prev = merged_high(srcs.drop_last());
        match srcs.last() {
            Some(r) => if r.1 > prev {
                r.1
            } else {
                prev
            },
            None => prev,
        }
    }
}

/// `x / 10` rounded to the nearest integer, halves away from zero.
pub open spec fn round_div10(x: int) -> int {
    if x >= 0 {
        (x + 5) / 10
    } else {
        -((-x + 5) / 10)
    }
}

/// `x` clamped to the range of `i64`.
pub open spec fn saturate(x: int) -> i64 {
    if x > i64::MAX {
        i64::MAX
    } else if x < i64::MIN {
        i64::MIN
    } else {
        x as i64
    }
}

/// `[low, high]` widened on each side by a tenth of its span, rounded to the
/// nearest raw value and clamped to the range of `i64`.
pub open spec fn widened(range: Range) -> Range {
    let span = range.1 - range.0;
    Range(saturate(round_div10(10 * range.0 - span)), saturate(round_div10(10 * range.1 + span)))
}

fn round_div10_exec(x: i128) -> (r: i128)
    requires
        -0x1000_0000_0000_0000_0000 < x < 0x1000_0000_0000_0000_0000,
    ensures
        r == round_div10(x as int),
        -0x1000_0000_0000_0000_0000 < r < 0x1000_0000_0000_0000_0000,
{
    if x >= 0 {
        (x + 5) / 10
    } else {
        let m: i128 = -x;
        -((m + 5) / 10)
    }
}

fn saturate_exec(x: i128) -> (r: i64)
    ensures
        r == saturate(x as int),
{
    if x > i64::MAX as i128 {
        i64::MAX
    } else if x < i64::MIN as i128 {
        i64::MIN
    } else {
        x as i64
    }
}

/// Expands a range by a tenth of its span on both ends, so that a lookup table
/// built on it also covers values that drift slightly past the observed ones.
pub fn buffer_range(range: Range) -> (r: Range)
    ensures
        r == widened(range),
{
    let span: i128 = range.1 as i128 - range.0 as i128;
    let low: i128 = round_div10_exec(10 * (range.0 as i128) - span);
    let high: i128 = round_div10_exec(10 * (range.1 as i128) + span);
    Range(saturate_exec(low), saturate_exec(high))
}

/// The smallest low end and the largest high end over the sources that have a
/// concrete buffer (`Some` of its minimum and maximum).
pub fn merged_range(srcs: &Vec<Option<Range>>) -> (r: Range)
    ensures
        r == Range(merged_low(srcs@), merged_high(srcs@)),
{
    let mut min: i64 = i64::MAX;
    let mut max: i64 = i64::MIN;
    let mut i: usize = 0;
    while i < srcs.len()
        invariant
            i <= srcs@.len(),
            min == merged_low(srcs@.take(i as int)),
            max == merged_high(srcs@.take(i as int)),
        decreases srcs@.len() - i,
    {
        assert(srcs@.take(i + 1).drop_last() =~= srcs@.take(i as int));
        if let Some(src) = srcs[i] {
            if src.0 < min {
                min = src.0;
            }
            if src.1 > max {
                max = src.1;
            }
        }
        i = i + 1;
    }
    assert(srcs@.take(srcs@.len() as int) =~= srcs@);
    Range(min, max)
}

/// The margin-widened range of all values over the sources that have a concrete
/// buffer (`Some` of its minimum and maximum).
pub fn compute_padded_range_from_srcs(srcs: &Vec<Option<Range>>) -> (r: Range)
    ensures
        r == widened(Range(merged_low(srcs@), merged_high(srcs@))),
{
    buffer_range(merged_range(srcs))
}

/// The merged range lies within every present source's bounds: its low end is at
/// most each present low end and its high end at least each present high end.
pub proof fn lemma_merged_range_covers(srcs: Seq<Option<Range>>, i: int)
    requires
        0 <= i < srcs.len(),
        srcs[i] is Some,
    ensures
        merged_low(srcs) <= (srcs[i]->0).0,
        merged_high(srcs) >= (srcs[i]->0).1,
    decreases srcs.len(),
{
    if i < srcs.len() - 1 {
        assert(srcs.drop_last()[i] == srcs[i]);
        lemma_merged_range_covers(srcs.drop_last(), i);
    }
}

} // verus!
