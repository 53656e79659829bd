use luminair_trace::multiplicity::AtomicMultiplicityColumn;
use luminair_trace::range::{buffer_min_max, buffer_range, compute_padded_range_from_srcs, get_index, merged_range, Range};

#[test]
fn new_column_is_zeroed() {
    let c = AtomicMultiplicityColumn::new(5);
    assert_eq!(c.len(), 5);
    assert!(!c.is_empty());
    assert_eq!(c.snapshot(), vec![0u32; 5]);
    assert!(AtomicMultiplicityColumn::new(0).is_empty());
}

#[test]
fn increments_match_a_sequential_count() {
    let mut c = AtomicMultiplicityColumn::new(10);
    let mut oracle = vec![0u32; 10];
    for k in 0..1000usize {
        let a = (k * 7 + k / 3) % 10;
        c.increase_at(a);
        oracle[a] += 1;
    }
    assert_eq!(c.snapshot(), oracle);
}

#[test]
fn clone_is_an_independent_snapshot() {
    let mut c = AtomicMultiplicityColumn::new(3);
    c.increase_at(1);
    let d = c.clone();
    c.increase_at(1);
    assert_eq!(d.len(), 3);
    assert_eq!(d.snapshot(), vec![0, 1, 0]);
    assert_eq!(c.snapshot(), vec![0, 2, 0]);
}

#[test]
fn counter_wraps_at_the_top() {
    let mut c = AtomicMultiplicityColumn::from_counts(&vec![u32::MAX, 4]);
    c.increase_at(0);
    assert_eq!(c.snapshot(), vec![0, 4]);
}

const ONE: i64 = 4096;

#[test]
fn range_with_margin() {
    let srcs = vec![Some(Range(0, 10 * ONE)), None, Some(Range(-5 * ONE, 20 * ONE))];
    assert_eq!(merged_range(&srcs), Range(-5 * ONE, 20 * ONE));
    assert_eq!(compute_padded_range_from_srcs(&srcs), Range(-7 * ONE - ONE / 2, 22 * ONE + ONE / 2));
}

#[test]
fn margin_rounds_half_away_from_zero() {
    assert_eq!(buffer_range(Range(-5, 20)), Range(-8, 23));
    assert_eq!(buffer_range(Range(0, 10)), Range(-1, 11));
    assert_eq!(buffer_range(Range(3, 3)), Range(3, 3));
}

#[test]
fn margin_saturates() {
    assert_eq!(buffer_range(Range(i64::MIN, i64::MAX)), Range(i64::MIN, i64::MAX));
    let none: Vec<Option<Range>> = vec![None];
    assert_eq!(compute_padded_range_from_srcs(&none), Range(i64::MAX, i64::MIN));
}

#[test]
fn indexed_access() {
    let data = vec![5i64, -6, 7];
    assert_eq!(get_index(&data, 1, 2), 7);
    assert_eq!(get_index(&data, 3, 1), -6);
    assert_eq!(get_index(&data, 0, 1), 0);
    assert_eq!(get_index(&data, 0, 99), 0);
}

#[test]
fn buffer_bounds() {
    assert_eq!(buffer_min_max(&vec![3i64, -9, 12, 0]), Some(Range(-9, 12)));
    assert_eq!(buffer_min_max(&vec![7i64]), Some(Range(7, 7)));
    assert_eq!(buffer_min_max(&Vec::new()), None);
}
