//! The lookup channels of the sum-reduce component's interaction trace.
//!
//! Each channel pairs a value column, an identity column and a multiplicity
//! column of the main trace. At every row of the domain it contributes the
//! fraction `multiplicity / combine(value, identity)` to the LogUp sum, where
//! `combine` is the shared, randomly drawn lookup relation.
//!
//! This module selects the channels and produces, row by row, the tuples that
//! the fractions are made of. Combining each tuple with the lookup elements,
//! turning the fractions into running-sum columns and computing the claimed sum
//! need the stwo prover's secure field and LogUp trace generator, which this
//! crate does not depend on; they are left to the proving backend. The balance
//! of claimed sums is checked in `claims`.
use vstd::prelude::*;
use crate::log_size::domain_size;
use crate::table::{
    is_evaluation_of, row_value, trace_cell, SumReduceColumn, SumReduceTableRow, TraceError, N_INTERACTION_COLUMNS,
    N_MAIN_COLUMNS,
};

verus! {

/// The numerator and the tuple to be combined into the denominator of one
/// fraction of a lookup channel.
#[derive(Debug, Clone, Copy, PartialEq, Eq)]
pub struct LookupFraction {
    pub multiplicity: u32,
    pub value: u32,
    pub id: u32,
}

/// Main-trace column of the value looked up by channel `k`
/// (left operand, right operand, output).
pub open spec fn value_column(k: int) -> int {
    if k == 0 {
        SumReduceColumn::Lhs.spec_index()
    } else if k == 1 {
        SumReduceColumn::Rhs.spec_index()
    } else {
        SumReduceColumn::Out.spec_index()
    }
}

/// Main-trace column of the identity that goes with the value of channel `k`.
pub open spec fn id_column(k: int) -> int {
    if k == 0 {
        SumReduceColumn::LhsId.spec_index()
    } else if k == 1 {
        SumReduceColumn::RhsId.spec_index()
    } else {
        SumReduceColumn::NodeId.spec_index()
    }
}

/// Main-trace column of the multiplicity of channel `k`.
pub open spec fn mult_column(k: int) -> int {
    if k == 0 {
        SumReduceColumn::LhsMult.spec_index()
    } else if k == 1 {
        SumReduceColumn::RhsMult.spec_index()
    } else {
        SumReduceColumn::OutMult.spec_index()
    }
}

/// The fraction of channel `k` at row `r` of the main trace `cols`.
pub open spec fn channel_fraction(cols: Seq<Vec<u32>>, k: int, r: int) -> LookupFraction {
    LookupFraction {
        multiplicity: cols[mult_column(k)]@[r],
        value: cols[value_column(k)]@[r],
        id: cols[id_column(k)]@[r],
    }
}

/// A main trace of the sum-reduce component: all its columns, of one length.
pub open spec fn main_trace_wf(cols: Seq<Vec<u32>>) -> bool {
    &&& cols.len() == N_MAIN_COLUMNS
    &&& forall|c: int| 0 <= c < cols.len() ==> #[trigger] cols[c]@.len() == cols[0]@.len()
}

fn channel_fractions(
    main_trace: &Vec<Vec<u32>>,
    value_col: usize,
    id_col: usize,
    mult_col: usize,
    k: Ghost<int>,
) -> (r: Vec<LookupFraction>)
    requires
        main_trace_wf(main_trace@),
        0 <= k@ < N_INTERACTION_COLUMNS,
        value_col == value_column(k@),
        id_col == id_column(k@),
        mult_col == mult_column(k@),
    ensures
        r@.len() == main_trace@[0]@.len(),
        forall|i: int| 0 <= i < r@.len() ==> #[trigger] r@[i] == channel_fraction(main_trace@, k@, i),
{
    let n = main_trace[0].len();
    let values = &main_trace[value_col];
    let ids = &main_trace[id_col];
    let mults = &main_trace[mult_col];
    let mut r: Vec<LookupFraction> = Vec::with_capacity(n);
    let mut i: usize = 0;
    assert(values@.len() == n && ids@.len() == n && mults@.len() == n);
    while i < n
        invariant
            i <= n,
            n == main_trace@[0]@.len(),
            values@.len() == n && ids@.len() == n && mults@.len() == n,
            *values == main_trace@[value_column(k@)],
            *ids == main_trace@[id_column(k@)],
            *mults == main_trace@[mult_column(k@)],
            r@.len() == i,
            forall|j: int| 0 <= j < i ==> #[trigger] r@[j] == channel_fraction(main_trace@, k@, j),
        decreases n - i,
    {
        r.push(LookupFraction { multiplicity: mults[i], value: values[i], id: ids[i] });
        i = i + 1;
    }
    r
}

/// The fractions of the three lookup channels of a main trace (left operand,
/// right operand, output), one for every row of the domain, in row order.
pub fn interaction_trace_evaluation(main_trace: &Vec<Vec<u32>>) -> (res: Result<
    Vec<Vec<LookupFraction>>,
    TraceError,
>)
    requires
        main_trace@.len() == 0 || main_trace_wf(main_trace@),
    ensures
        res is Err <==> main_trace@.len() == 0,
        res is Err ==> res == Err::<Vec<Vec<LookupFraction>>, TraceError>(TraceError::EmptyTrace),
        res matches Ok(chans) ==> {
            &&& chans@.len() == N_INTERACTION_COLUMNS
            &&& forall|k: int|
                0 <= k < N_INTERACTION_COLUMNS ==> #[trigger] chans@[k]@.len()
                    == main_trace@[0]@.len()
            &&& forall|k: int, i: int|
                0 <= k < N_INTERACTION_COLUMNS && 0 <= i < main_trace@[0]@.len()
                    ==> #[trigger] chans@[k]@[i] == channel_fraction(main_trace@, k, i)
        },
{
    if main_trace.len() == 0 {
        return Err(TraceError::EmptyTrace);
    }
    let lhs = channel_fractions(
        main_trace,
        SumReduceColumn::Lhs.index(),
        SumReduceColumn::LhsId.index(),
        SumReduceColumn::LhsMult.index(),
        Ghost(0),
    );
    let rhs = channel_fractions(
        main_trace,
        SumReduceColumn::Rhs.index(),
        SumReduceColumn::RhsId.index(),
        SumReduceColumn::RhsMult.index(),
        Ghost(1),
    );
    let out = channel_fractions(
        main_trace,
        SumReduceColumn::Out.index(),
        SumReduceColumn::NodeId.index(),
        SumReduceColumn::OutMult.index(),
        Ghost(2),
    );
    let mut chans: Vec<Vec<LookupFraction>> = Vec::new();
    chans.push(lhs);
    chans.push(rhs);
    chans.push(out);
    assert forall|k: int, i: int|
        0 <= k < N_INTERACTION_COLUMNS && 0 <= i < main_trace@[0]@.len() implies #[trigger] chans@[k]@[i]
        == channel_fraction(main_trace@, k, i) by {
        if k == 0 {
            assert(chans@[0]@ == lhs@);
        } else if k == 1 {
            assert(chans@[1]@ == rhs@);
        } else {
            assert(chans@[2]@ == out@);
        }
    }
    Ok(chans)
}

/// The fraction of channel `k` that a table row contributes.
pub open spec fn row_fraction(row: SumReduceTableRow, k: int) -> LookupFraction {
    LookupFraction {
        multiplicity: row_value(row, mult_column(k)),
        value: row_value(row, value_column(k)),
        id: row_value(row, id_column(k)),
    }
}

/// The lookup fractions of an evaluated table are those of its rows, in order,
/// followed by fractions of multiplicity zero for the padding rows: padding takes
/// part in no lookup.
pub proof fn lemma_fractions_of_evaluation(
    rows: Seq<SumReduceTableRow>,
    cols: Seq<Vec<u32>>,
    log_size: nat,
    k: int,
    r: int,
)
    requires
        is_evaluation_of(rows, cols, log_size),
        0 <= k < N_INTERACTION_COLUMNS,
        0 <= r < domain_size(log_size),
    ensures
        main_trace_wf(cols),
        channel_fraction(cols, k, r) == if r < rows.len() {
            row_fraction(rows[r], k)
        } else {
            LookupFraction { multiplicity: 0, value: 0, id: 0 }
        },
{
    assert(cols[0]@.len() == domain_size(log_size));
    assert(cols[mult_column(k)]@[r] == trace_cell(rows, mult_column(k), r));
    assert(cols[value_column(k)]@[r] == trace_cell(rows, value_column(k), r));
    assert(cols[id_column(k)]@[r] == trace_cell(rows, id_column(k), r));
}

} // verus!
