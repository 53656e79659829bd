//! Claimed sums in the secure field and the global balance check over them.
//!
//! The base field is the Mersenne field of order `2^31 - 1`; its elements are
//! held as canonical `u32` representatives. The secure field is its degree-four
//! extension, held as four base-field coordinates; its addition is coordinate-wise.
use vstd::prelude::*;

verus! {

/// The modulus of the base field, `2^31 - 1`.
pub const P: u32 = 0x7fff_ffff;

/// Sum of two base-field elements.
pub open spec fn base_add(x: u32, y: u32) -> u32 {
    ((x + y) % (P as int)) as u32
}

/// Additive inverse of a base-field element.
pub open spec fn base_neg(x: u32) -> u32 {
    ((P - x) % (P as int)) as u32
}

/// An element of the secure field, by its four base-field coordinates.
#[derive(Debug, Clone, Copy, PartialEq, Eq)]
pub struct SecureValue {
    pub a: u32,
    pub b: u32,
    pub c: u32,
    pub d: u32,
}

impl SecureValue {
    /// Every coordinate is a canonical base-field element.
    pub open spec fn wf(self) -> bool {
        self.a < P && self.b < P && self.c < P && self.d < P
    }

    /// The secure field's zero.
    pub fn zero() -> (r: Self)
        ensures
            r == secure_zero(),
    {
        SecureValue { a: 0, b: 0, c: 0, d: 0 }
    }

    /// Sum in the secure field.
    pub fn add(&self, o: &SecureValue) -> (r: Self)
        requires
            self.wf(),
            o.wf(),
        ensures
            r == secure_add(*self, *o),
            r.wf(),
    {
        SecureValue {
            a: add_base(self.a, o.a),
            b: add_base(self.b, o.b),
            c: add_base(self.c, o.c),
            d: add_base(self.d, o.d),
        }
    }

    /// Additive inverse in the secure field.
    pub fn neg(&self) -> (r: Self)
        requires
            self.wf(),
        ensures
            r == secure_neg(*self),
            r.wf(),
    {
        SecureValue { a: neg_base(self.a), b: neg_base(self.b), c: neg_base(self.c), d: neg_base(self.d) }
    }

    /// Whether this is the secure field's zero.
    pub fn is_zero(&self) -> (r: bool)
        ensures
            r == (*self == secure_zero()),
    {
        self.a == 0 && self.b == 0 && self.c == 0 && self.d == 0
    }
}

pub open spec fn secure_zero() -> SecureValue {
    SecureValue { a: 0, b: 0, c: 0, d: 0 }
}

pub open spec fn secure_add(x: SecureValue, y: SecureValue) -> SecureValue {
    SecureValue {
        a: base_add(x.a, y.a),
        b: base_add(x.b, y.b),
        c: base_add(x.c, y.c),
        d: base_add(x.d, y.d),
    }
}

pub open spec fn secure_neg(x: SecureValue) -> SecureValue {
    SecureValue { a: base_neg(x.a), b: base_neg(x.b), c: base_neg(x.c), d: base_neg(x.d) }
}

fn add_base(x: u32, y: u32) -> (r: u32)
    requires
        x < P,
        y < P,
    ensures
        r == base_add(x, y),
        r < P,
{
    let s: u32 = x + y;
    if s >= P {
        s - P
    } else {
        s
    }
}

fn neg_base(x: u32) -> (r: u32)
    requires
        x < P,
    ensures
        r == base_neg(x),
        r < P,
{
    if x == 0 {
        0
    } else {
        P - x
    }
}

/// The claimed sum of one component's interaction trace.
#[derive(Debug, Clone, Copy, PartialEq, Eq)]
pub struct InteractionClaim {
    pub claimed_sum: SecureValue,
}

/// The interaction claims of every component of a program; a component that does
/// not occur in the program has none.
#[derive(Debug, Clone, Copy, PartialEq, Eq)]
pub struct LuminairInteractionClaim {
    pub add: Option<InteractionClaim>,
    pub mul: Option<InteractionClaim>,
    pub sum_reduce: Option<InteractionClaim>,
    pub recip: Option<InteractionClaim>,
    pub max_reduce: Option<InteractionClaim>,
    pub sin: Option<InteractionClaim>,
    pub sin_lookup: Option<InteractionClaim>,
}

/// What one optional claim adds to the global sum.
pub open spec fn contribution(c: Option<InteractionClaim>) -> SecureValue {
    match c {
        Some(ic) => ic.claimed_sum,
        None => secure_zero(),
    }
}

/// The sum of the claims in `s`, in order.
pub open spec fn claims_total(s: Seq<Option<InteractionClaim>>) -> SecureValue
    decreases s.len(),
{
    if s.len() == 0 {
        secure_zero()
    } else {
        secure_add(claims_total(s.drop_last()), contribution(s.last()))
    }
}

/// Every present claimed sum is a well-formed secure-field element.
pub open spec fn claims_wf(s: Seq<Option<InteractionClaim>>) -> bool {
    forall|i: int| 0 <= i < s.len() ==> #[trigger] contribution(s[i]).wf()
}

impl LuminairInteractionClaim {
    /// The components' claims in a fixed order.
    pub open spec fn claims(self) -> Seq<Option<InteractionClaim>> {
        seq![
            self.add,
            self.mul,
            self.sum_reduce,
            self.recip,
            self.max_reduce,
            self.sin,
            self.sin_lookup,
        ]
    }
}

/// The trace set is balanced: the claimed sums of all present components add up to zero.
pub fn log_sum_valid(interaction_claim: &LuminairInteractionClaim) -> (r: bool)
    requires
        claims_wf(interaction_claim.claims()),
    ensures
        r == (claims_total(interaction_claim.claims()) == secure_zero()),
{
    let claims: Vec<Option<InteractionClaim>> = vec![
        interaction_claim.add,
        interaction_claim.mul,
        interaction_claim.sum_reduce,
        interaction_claim.recip,
        interaction_claim.max_reduce,
        interaction_claim.sin,
        interaction_claim.sin_lookup,
    ];
    assert(claims@ =~= interaction_claim.claims());
    let mut sum = SecureValue::zero();
    let mut i: usize = 0;
    while i < claims.len()
        invariant
            i <= claims@.len(),
            claims@ == interaction_claim.claims(),
            claims_wf(claims@),
            sum == claims_total(claims@.take(i as int)),
            sum.wf(),
        decreases claims@.len() - i,
    {
        assert(claims@.take(i + 1).drop_last() =~= claims@.take(i as int));
        assert(contribution(claims@[i as int]).wf());
        match claims[i] {
            Some(ic) => {
                sum = sum.add(&ic.claimed_sum);
            },
            None => {
                proof {
                    assert(base_add(sum.a, 0) == sum.a);
                    assert(base_add(sum.b, 0) == sum.b);
                    assert(base_add(sum.c, 0) == sum.c);
                    assert(base_add(sum.d, 0) == sum.d);
                }
            },
        }
        i = i + 1;
    }
    assert(claims@.take(7) =~= claims@);
    sum.is_zero()
}

/// A claimed sum and its additive inverse cancel.
pub proof fn lemma_opposite_sums_cancel(x: SecureValue)
    requires
        x.wf(),
    ensures
        secure_add(x, secure_neg(x)) == secure_zero(),
{
}

/// A record holding one component's claim and a lookup table's claim of the
/// opposite sign, and no other claim, passes the global balance check.
pub proof fn lemma_opposite_claims_balance(c: LuminairInteractionClaim, x: SecureValue)
    requires
        x.wf(),
        c.add is None,
        c.mul is None,
        c.sum_reduce == Some(InteractionClaim { claimed_sum: x }),
        c.recip is None,
        c.max_reduce is None,
        c.sin is None,
        c.sin_lookup == Some(InteractionClaim { claimed_sum: secure_neg(x) }),
    ensures
        claims_total(c.claims()) == secure_zero(),
{
    let s = c.claims();
    reveal_with_fuel(claims_total, 8);
    assert(s.drop_last() =~= s.take(6));
    assert(s.take(6).drop_last() =~= s.take(5));
    assert(s.take(5).drop_last() =~= s.take(4));
    assert(s.take(4).drop_last() =~= s.take(3));
    assert(s.take(3).drop_last() =~= s.take(2));
    assert(s.take(2).drop_last() =~= s.take(1));
    assert(s.take(1).drop_last() =~= s.take(0));
    assert(claims_total(s.take(3)) == x);
}

} // verus!
