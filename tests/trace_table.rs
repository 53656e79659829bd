use luminair_trace::log_size::{calculate_log_size, get_is_first_log_sizes};
use luminair_trace::table::{SumReduceColumn, SumReduceTable, SumReduceTableRow, TraceError};

fn row(seed: u32) -> SumReduceTableRow {
    SumReduceTableRow {
        node_id: seed + 1,
        lhs_id: seed + 2,
        rhs_id: seed + 3,
        idx: seed + 4,
        is_last_idx: 0,
        next_node_id: seed + 6,
        next_lhs_id: seed + 7,
        next_rhs_id: seed + 8,
        next_idx: seed + 9,
        lhs: seed + 10,
        rhs: seed + 11,
        out: seed + 12,
        acc: seed + 13,
        next_acc: seed + 14,
        is_last_step: 0,
        lhs_mult: 1,
        rhs_mult: 2,
        out_mult: 3,
    }
}

fn table_of(n: u32) -> SumReduceTable {
    let mut t = SumReduceTable::new();
    for i in 0..n {
        t.add_row(row(100 * i));
    }
    t
}

#[test]
fn log_size_values() {
    assert_eq!(calculate_log_size(0), 4);
    assert_eq!(calculate_log_size(1), 4);
    assert_eq!(calculate_log_size(16), 4);
    assert_eq!(calculate_log_size(17), 5);
    assert_eq!(calculate_log_size(32), 5);
    assert_eq!(calculate_log_size(33), 6);
    assert_eq!(calculate_log_size(1000), 10);
    assert_eq!(calculate_log_size(1025), 11);
}

#[test]
fn log_size_round_up_and_monotone() {
    let mut prev = 0;
    for n in 0..600usize {
        let k = calculate_log_size(n);
        let rounded = (n + 15) / 16 * 16;
        assert_eq!(k, calculate_log_size(rounded));
        assert!(k >= prev);
        assert!(k >= 4);
        assert!((1usize << k) >= n);
        prev = k;
    }
}

#[test]
fn is_first_log_sizes() {
    assert_eq!(get_is_first_log_sizes(5), vec![7, 6, 5, 4]);
    assert_eq!(get_is_first_log_sizes(2), vec![4]);
    assert_eq!(get_is_first_log_sizes(1), Vec::<u32>::new());
    assert_eq!(get_is_first_log_sizes(0), Vec::<u32>::new());
}

#[test]
fn column_indices() {
    assert_eq!(SumReduceColumn::NodeId.index(), 0);
    assert_eq!(SumReduceColumn::IsLastIdx.index(), 4);
    assert_eq!(SumReduceColumn::Lhs.index(), 9);
    assert_eq!(SumReduceColumn::Out.index(), 11);
    assert_eq!(SumReduceColumn::IsLastStep.index(), 14);
    assert_eq!(SumReduceColumn::OutMult.index(), 17);
    assert_eq!(SumReduceColumn::count(), (18, 3));
}

#[test]
fn empty_table_is_refused() {
    let t = SumReduceTable::new();
    assert_eq!(t.trace_evaluation(), Err(TraceError::EmptyTrace));
}

#[test]
fn single_row_table() {
    let t = table_of(1);
    let (cols, claim) = t.trace_evaluation().unwrap();
    assert_eq!(claim.log_size, 4);
    assert_eq!(cols.len(), 18);
    for c in 0..18 {
        assert_eq!(cols[c].len(), 16);
        assert_eq!(cols[c][0], t.table[0].value_at(c));
    }
    assert_eq!(cols[SumReduceColumn::Lhs.index()][0], 10);
    assert_eq!(cols[SumReduceColumn::OutMult.index()][0], 3);
}

#[test]
fn padding_rows_are_sentinels() {
    for n in [1u32, 5, 15, 16, 17, 31, 32, 33, 64] {
        let t = table_of(n);
        let (cols, claim) = t.trace_evaluation().unwrap();
        let size = 1usize << claim.log_size;
        assert!(size >= n as usize);
        assert!(claim.log_size >= 4);
        for c in 0..18 {
            assert_eq!(cols[c].len(), size);
            for r in 0..size {
                if r < n as usize {
                    assert_eq!(cols[c][r], t.table[r].value_at(c));
                } else if c == SumReduceColumn::IsLastIdx.index() {
                    assert_eq!(cols[c][r], 1);
                } else {
                    assert_eq!(cols[c][r], 0);
                }
            }
        }
    }
}

#[test]
fn exact_multiple_has_no_padding() {
    let t = table_of(16);
    let (cols, claim) = t.trace_evaluation().unwrap();
    assert_eq!(claim.log_size, 4);
    assert_eq!(cols[SumReduceColumn::IsLastIdx.index()], vec![0u32; 16]);
    let t = table_of(17);
    let (cols, claim) = t.trace_evaluation().unwrap();
    assert_eq!(claim.log_size, 5);
    assert_eq!(cols[SumReduceColumn::IsLastIdx.index()][17], 1);
    assert_eq!(cols[SumReduceColumn::NodeId.index()][16], 1601);
}
