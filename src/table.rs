//! The sum-reduce trace table and its evaluation into packed columns.
//!
//! Field elements of the base field are held as their canonical `u32`
//! representatives; the field's zero is `0` and its one is `1`.
//!
//! The evaluation returns the columns as plain vectors. Wrapping each column as an
//! evaluation over the canonical circle domain of size `2^log_size` needs the stwo
//! prover's polynomial types, which this crate does not depend on, and is left to
//! the proving backend.
use vstd::prelude::*;
use crate::log_size::{calculate_log_size, domain_size, is_log_size_of, LOG_N_LANES};

verus! {

/// Number of columns in the main trace of the sum-reduce component.
pub const N_MAIN_COLUMNS: usize = 18;

/// Number of columns in the interaction trace of the sum-reduce component.
pub const N_INTERACTION_COLUMNS: usize = 3;

/// Errors of trace construction.
#[derive(Debug, Clone, Copy, PartialEq, Eq)]
pub enum TraceError {
    /// The table or the main trace holds nothing to evaluate.
    EmptyTrace,
}

/// The published shape of a sum-reduce trace.
#[derive(Debug, Clone, Copy, PartialEq, Eq)]
pub struct SumReduceClaim {
    pub log_size: u32,
}

impl SumReduceClaim {
    pub fn new(log_size: u32) -> (r: Self)
        ensures
            r.log_size == log_size,
    {
        SumReduceClaim { log_size }
    }
}

/// One execution step of a sum reduction.
#[derive(Debug, Default, PartialEq, Eq, Clone, Copy)]
pub struct SumReduceTableRow {
    pub node_id: u32,
    pub lhs_id: u32,
    pub rhs_id: u32,
    pub idx: u32,
    pub is_last_idx: u32,
    pub next_node_id: u32,
    pub next_lhs_id: u32,
    pub next_rhs_id: u32,
    pub next_idx: u32,
    pub lhs: u32,
    pub rhs: u32,
    pub out: u32,
    pub acc: u32,
    pub next_acc: u32,
    pub is_last_step: u32,
    pub lhs_mult: u32,
    pub rhs_mult: u32,
    pub out_mult: u32,
}

/// The value that `row` holds in the main-trace column numbered `c`.
pub open spec fn row_value(row: SumReduceTableRow, c: int) -> u32 {
    if c == 0 {
        row.node_id
    } else if c == 1 {
        row.lhs_id
    } else if c == 2 {
        row.rhs_id
    } else if c == 3 {
        row.idx
    } else if c == 4 {
        row.is_last_idx
    } else if c == 5 {
        row.next_node_id
    } else if c == 6 {
        row.next_lhs_id
    } else if c == 7 {
        row.next_rhs_id
    } else if c == 8 {
        row.next_idx
    } else if c == 9 {
        row.lhs
    } else if c == 10 {
        row.rhs
    } else if c == 11 {
        row.out
    } else if c == 12 {
        row.acc
    } else if c == 13 {
        row.next_acc
    } else if c == 14 {
        row.is_last_step
    } else if c == 15 {
        row.lhs_mult
    } else if c == 16 {
        row.rhs_mult
    } else {
        row.out_mult
    }
}

/// The value of a padding row in column `c`: one in the `is_last_idx` column, zero elsewhere.
pub open spec fn padding_value(c: int) -> u32 {
    if c == SumReduceColumn::IsLastIdx.spec_index() {
        1
    } else {
        0
    }
}

/// The value at row `r` of column `c` of the evaluation of `rows`.
pub open spec fn trace_cell(rows: Seq<SumReduceTableRow>, c: int, r: int) -> u32 {
    if r < rows.len() {
        row_value(rows[r], c)
    } else {
        padding_value(c)
    }
}

/// `cols` is the main trace of `rows` over a domain of log size `log_size`: the log
/// size fits the row count, there is one column per field, each of `2^log_size`
/// rows, holding the rows in order and padding rows after them.
pub open spec fn is_evaluation_of(rows: Seq<SumReduceTableRow>, cols: Seq<Vec<u32>>, log_size: nat) -> bool {
    &&& is_log_size_of(rows.len(), log_size)
    &&& cols.len() == N_MAIN_COLUMNS
    &&& forall|c: int| 0 <= c < N_MAIN_COLUMNS ==> #[trigger] cols[c]@.len() == domain_size(log_size)
    &&& forall|c: int, r: int|
        0 <= c < N_MAIN_COLUMNS && 0 <= r < domain_size(log_size) ==> #[trigger] cols[c]@[r]
            == trace_cell(rows, c, r)
}

impl SumReduceTableRow {
    /// The value of this row in the main-trace column numbered `c`.
    pub fn value_at(&self, c: usize) -> (r: u32)
        requires
            c < N_MAIN_COLUMNS,
        ensures
            r == row_value(*self, c as int),
    {
        match c {
            0 => self.node_id,
            1 => self.lhs_id,
            2 => self.rhs_id,
            3 => self.idx,
            4 => self.is_last_idx,
            5 => self.next_node_id,
            6 => self.next_lhs_id,
            7 => self.next_rhs_id,
            8 => self.next_idx,
            9 => self.lhs,
            10 => self.rhs,
            11 => self.out,
            12 => self.acc,
            13 => self.next_acc,
            14 => self.is_last_step,
            15 => self.lhs_mult,
            16 => self.rhs_mult,
            _ => self.out_mult,
        }
    }
}

/// The columns of the main trace of the sum-reduce component, in trace order.
#[derive(Debug, Clone, Copy, PartialEq, Eq)]
pub enum SumReduceColumn {
    NodeId,
    LhsId,
    RhsId,
    Idx,
    IsLastIdx,
    NextNodeId,
    NextLhsId,
    NextRhsId,
    NextIdx,
    Lhs,
    Rhs,
    Out,
    Acc,
    NextAcc,
    IsLastStep,
    LhsMult,
    RhsMult,
    OutMult,
}

impl SumReduceColumn {
    pub open spec fn spec_index(self) -> int {
        match self {
            SumReduceColumn::NodeId => 0,
            SumReduceColumn::LhsId => 1,
            SumReduceColumn::RhsId => 2,
            SumReduceColumn::Idx => 3,
            SumReduceColumn::IsLastIdx => 4,
            SumReduceColumn::NextNodeId => 5,
            SumReduceColumn::NextLhsId => 6,
            SumReduceColumn::NextRhsId => 7,
            SumReduceColumn::NextIdx => 8,
            SumReduceColumn::Lhs => 9,
            SumReduceColumn::Rhs => 10,
            SumReduceColumn::Out => 11,
            SumReduceColumn::Acc => 12,
            SumReduceColumn::NextAcc => 13,
            SumReduceColumn::IsLastStep => 14,
            SumReduceColumn::LhsMult => 15,
            SumReduceColumn::RhsMult => 16,
            SumReduceColumn::OutMult => 17,
        }
    }

    /// Returns the index of the column in the sum-reduce trace.
    pub fn index(self) -> (r: usize)
        ensures
            r == self.spec_index(),
            r < N_MAIN_COLUMNS,
    {
        match self {
            SumReduceColumn::NodeId => 0,
            SumReduceColumn::LhsId => 1,
            SumReduceColumn::RhsId => 2,
            SumReduceColumn::Idx => 3,
            SumReduceColumn::IsLastIdx => 4,
            SumReduceColumn::NextNodeId => 5,
            SumReduceColumn::NextLhsId => 6,
            SumReduceColumn::NextRhsId => 7,
            SumReduceColumn::NextIdx => 8,
            SumReduceColumn::Lhs => 9,
            SumReduceColumn::Rhs => 10,
            SumReduceColumn::Out => 11,
            SumReduceColumn::Acc => 12,
            SumReduceColumn::NextAcc => 13,
            SumReduceColumn::IsLastStep => 14,
            SumReduceColumn::LhsMult => 15,
            SumReduceColumn::RhsMult => 16,
            SumReduceColumn::OutMult => 17,
        }
    }

    /// Numbers of columns in the main trace and in the interaction trace.
    pub fn count() -> (r: (usize, usize))
        ensures
            r == (N_MAIN_COLUMNS, N_INTERACTION_COLUMNS),
    {
        (N_MAIN_COLUMNS, N_INTERACTION_COLUMNS)
    }
}

/// `2^log_size` as a `usize`.
fn domain_len(log_size: u32) -> (r: usize)
    requires
        domain_size(log_size as nat) <= usize::MAX,
    ensures
        r as nat == domain_size(log_size as nat),
{
    let mut r: usize = 1;
    let mut k: u32 = 0;
    while k < log_size
        invariant
            k <= log_size,
            r as nat == domain_size(k as nat),
            domain_size(log_size as nat) <= usize::MAX,
        decreases log_size - k,
    {
        proof {
            crate::log_size::lemma_domain_size_monotone((k + 1) as nat, log_size as nat);
        }
        r = r * 2;
        k = k + 1;
    }
    r
}

/// The rows of a sum-reduce component, in the order of execution.
#[derive(Debug, Default, PartialEq, Eq, Clone)]
pub struct SumReduceTable {
    pub table: Vec<SumReduceTableRow>,
}

impl SumReduceTable {
    /// Creates a new, empty table.
    pub fn new() -> (r: Self)
        ensures
            r.table@.len() == 0,
    {
        SumReduceTable { table: Vec::new() }
    }

    /// Appends a row to the table.
    pub fn add_row(&mut self, row: SumReduceTableRow)
        ensures
            final(self).table@ == old(self).table@.push(row),
    {
        self.table.push(row);
    }

    /// Packs the table into the main-trace columns, each of `2^log_size` rows, with
    /// the rows in insertion order and padding rows after them.
    pub fn trace_evaluation(&self) -> (res: Result<(Vec<Vec<u32>>, SumReduceClaim), TraceError>)
        requires
            self.table@.len() <= usize::MAX / 2,
        ensures
            res is Err <==> self.table@.len() == 0,
            res is Err ==> res == Err::<(Vec<Vec<u32>>, SumReduceClaim), TraceError>(
                TraceError::EmptyTrace,
            ),
            res matches Ok((cols, claim)) ==> is_evaluation_of(
                self.table@,
                cols@,
                claim.log_size as nat,
            ),
            res matches Ok((cols, claim)) ==> {
                &&& claim.log_size >= LOG_N_LANES
                &&& self.table@.len() <= domain_size(claim.log_size as nat)
                &&& cols@.len() == N_MAIN_COLUMNS
                &&& forall|c: int|
                    0 <= c < N_MAIN_COLUMNS ==> #[trigger] cols@[c]@.len() == domain_size(
                        claim.log_size as nat,
                    )
                &&& forall|r: int|
                    self.table@.len() <= r < domain_size(claim.log_size as nat)
                        ==> #[trigger] cols@[SumReduceColumn::IsLastIdx.spec_index()]@[r] == 1
                &&& forall|c: int, r: int|
                    0 <= c < N_MAIN_COLUMNS && c != SumReduceColumn::IsLastIdx.spec_index()
                        && self.table@.len() <= r < domain_size(claim.log_size as nat)
                        ==> #[trigger] cols@[c]@[r] == 0
            },
    {
        let n_rows = self.table.len();
        if n_rows == 0 {
            return Err(TraceError::EmptyTrace);
        }
        let log_size = calculate_log_size(n_rows);
        let trace_size = domain_len(log_size);
        let mut cols: Vec<Vec<u32>> = Vec::new();
        let mut c: usize = 0;
        while c < N_MAIN_COLUMNS
            invariant
                c <= N_MAIN_COLUMNS,
                n_rows == self.table@.len(),
                trace_size as nat == domain_size(log_size as nat),
                n_rows <= trace_size,
                cols@.len() == c,
                forall|c2: int| 0 <= c2 < c ==> #[trigger] cols@[c2]@.len() == trace_size,
                forall|c2: int, r: int|
                    0 <= c2 < c && 0 <= r < trace_size ==> #[trigger] cols@[c2]@[r]
                        == trace_cell(self.table@, c2, r),
            decreases N_MAIN_COLUMNS - c,
        {
            let pad: u32 = if c == SumReduceColumn::IsLastIdx.index() {
                1
            } else {
                0
            };
            let mut col: Vec<u32> = Vec::with_capacity(trace_size);
            let mut r: usize = 0;
            while r < trace_size
                invariant
                    c < N_MAIN_COLUMNS,
                    r <= trace_size,
                    n_rows == self.table@.len(),
                    pad == padding_value(c as int),
                    col@.len() == r,
                    forall|r2: int| 0 <= r2 < r ==> #[trigger] col@[r2] == trace_cell(
                        self.table@, c as int, r2,
                    ),
                decreases trace_size - r,
            {
                if r < n_rows {
                    col.push(self.table[r].value_at(c));
                } else {
                    col.push(pad);
                }
                r = r + 1;
            }
            cols.push(col);
            c = c + 1;
        }
        Ok((cols, SumReduceClaim::new(log_size)))
    }
}

} // verus!
