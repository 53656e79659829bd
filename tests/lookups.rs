use luminair_trace::claims::{log_sum_valid, InteractionClaim, LuminairInteractionClaim, SecureValue, P};
use luminair_trace::interaction::{interaction_trace_evaluation, LookupFraction};
use luminair_trace::table::{SumReduceTable, SumReduceTableRow, TraceError};

fn none_claims() -> LuminairInteractionClaim {
    LuminairInteractionClaim {
        add: None,
        mul: None,
        sum_reduce: None,
        recip: None,
        max_reduce: None,
        sin: None,
        sin_lookup: None,
    }
}

fn sv(a: u32, b: u32, c: u32, d: u32) -> SecureValue {
    SecureValue { a, b, c, d }
}

#[test]
fn empty_main_trace_is_refused() {
    let cols: Vec<Vec<u32>> = Vec::new();
    assert_eq!(interaction_trace_evaluation(&cols), Err(TraceError::EmptyTrace));
}

#[test]
fn channels_follow_the_main_trace() {
    let mut t = SumReduceTable::new();
    let mut r = SumReduceTableRow::default();
    r.node_id = 7;
    r.lhs_id = 5;
    r.rhs_id = 6;
    r.lhs = 40;
    r.rhs = 2;
    r.out = 42;
    r.lhs_mult = 1;
    r.rhs_mult = 2;
    r.out_mult = 3;
    t.add_row(r);
    let (cols, _) = t.trace_evaluation().unwrap();
    let chans = interaction_trace_evaluation(&cols).unwrap();
    assert_eq!(chans.len(), 3);
    assert_eq!(chans[0][0], LookupFraction { multiplicity: 1, value: 40, id: 5 });
    assert_eq!(chans[1][0], LookupFraction { multiplicity: 2, value: 2, id: 6 });
    assert_eq!(chans[2][0], LookupFraction { multiplicity: 3, value: 42, id: 7 });
    for k in 0..3 {
        assert_eq!(chans[k].len(), 16);
        for i in 1..16 {
            assert_eq!(chans[k][i].multiplicity, 0);
        }
    }
}

#[test]
fn secure_addition_reduces_modulo_p() {
    let x = sv(P - 1, 3, 0, 10);
    let y = sv(2, P - 3, 0, 5);
    assert_eq!(x.add(&y), sv(1, 0, 0, 15));
    assert_eq!(x.add(&x.neg()), SecureValue::zero());
    assert!(!x.is_zero());
    assert!(SecureValue::zero().is_zero());
}

#[test]
fn no_claims_are_balanced() {
    assert!(log_sum_valid(&none_claims()));
}

#[test]
fn opposite_claims_are_balanced() {
    let x = sv(12, P - 1, 77, 0);
    let mut c = none_claims();
    c.sum_reduce = Some(InteractionClaim { claimed_sum: x });
    assert!(!log_sum_valid(&c));
    c.sin_lookup = Some(InteractionClaim { claimed_sum: x.neg() });
    assert!(log_sum_valid(&c));
    c.add = Some(InteractionClaim { claimed_sum: sv(0, 0, 1, 0) });
    assert!(!log_sum_valid(&c));
    c.mul = Some(InteractionClaim { claimed_sum: sv(0, 0, P - 1, 0) });
    assert!(log_sum_valid(&c));
}
