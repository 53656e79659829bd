//! Sizes of trace domains: powers of two that hold whole SIMD vectors.
use vstd::prelude::*;

verus! {

/// Base-two logarithm of the number of lanes in one packed vector of field elements.
pub const LOG_N_LANES: u32 = 4;

/// Number of lanes in one packed vector of field elements.
pub const N_LANES: usize = 16;

/// `2^k`.
pub open spec fn domain_size(k: nat) -> nat
    decreases k,
{
    if k == 0 {
        1
    } else {
        2 * domain_size((k - 1) as nat)
    }
}

/// `k` is the log size of a trace with `n` rows: the smallest `k` that is at least
/// `LOG_N_LANES` and for which `2^k` rows hold all `n`.
pub open spec fn is_log_size_of(n: nat, k: nat) -> bool {
    &&& k >= LOG_N_LANES
    &&& n <= domain_size(k)
    &&& (k == LOG_N_LANES || domain_size((k - 1) as nat) < n)
}

/// `n` rounded up to a whole number of packed vectors.
pub open spec fn round_up_to_lanes(n: nat) -> nat {
    (((n + N_LANES - 1) / N_LANES as int) * N_LANES) as nat
}

pub proof fn lemma_domain_size_monotone(a: nat, b: nat)
    requires
        a <= b,
    ensures
        domain_size(a) <= domain_size(b),
        a < b ==> 2 * domain_size(a) <= domain_size(b),
    decreases b - a,
{
    if a < b {
        lemma_domain_size_monotone(a, (b - 1) as nat);
    }
}

proof fn lemma_domain_size_64()
    ensures
        domain_size(64) == 0x1_0000_0000_0000_0000,
{
    reveal_with_fuel(domain_size, 65);
}

/// Every domain of log size at least `LOG_N_LANES` is a whole number of vectors.
pub proof fn lemma_domain_size_lanes(k: nat)
    requires
        k >= LOG_N_LANES,
    ensures
        (domain_size(k) as int) % (N_LANES as int) == 0,
        domain_size(k) >= N_LANES,
    decreases k,
{
    if k > LOG_N_LANES {
        lemma_domain_size_lanes((k - 1) as nat);
    } else {
        reveal_with_fuel(domain_size, 5);
    }
}

/// A row count has exactly one log size.
pub proof fn lemma_log_size_unique(n: nat, k1: nat, k2: nat)
    requires
        is_log_size_of(n, k1),
        is_log_size_of(n, k2),
    ensures
        k1 == k2,
{
    if k1 < k2 {
        lemma_domain_size_monotone(k1, (k2 - 1) as nat);
    } else if k2 < k1 {
        lemma_domain_size_monotone(k2, (k1 - 1) as nat);
    }
}

/// Rounding a row count up to whole vectors does not change its log size.
pub proof fn lemma_log_size_of_round_up(n: nat, k: nat)
    requires
        is_log_size_of(n, k),
    ensures
        is_log_size_of(round_up_to_lanes(n), k),
{
    lemma_domain_size_lanes(k);
    let d = domain_size(k);
    let q = d / 16;
    assert(d == q * 16);
    assert(((n + 15) / 16) <= q) by (nonlinear_arith)
        requires
            n <= d,
            d == q * 16,
    ;
    assert(((n + 15) / 16) * 16 <= q * 16) by (nonlinear_arith)
        requires
            ((n + 15) / 16) <= q,
    ;
    assert(n <= ((n + 15) / 16) * 16) by (nonlinear_arith);
}

/// A row count and that count rounded up to whole vectors have the same log size.
pub proof fn lemma_round_up_keeps_log_size(n: nat, k: nat, k_rounded: nat)
    requires
        is_log_size_of(n, k),
        is_log_size_of(round_up_to_lanes(n), k_rounded),
    ensures
        k == k_rounded,
{
    lemma_log_size_of_round_up(n, k);
    lemma_log_size_unique(round_up_to_lanes(n), k, k_rounded);
}

/// More rows never give a smaller log size.
pub proof fn lemma_log_size_monotone(n: nat, m: nat, kn: nat, km: nat)
    requires
        n <= m,
        is_log_size_of(n, kn),
        is_log_size_of(m, km),
    ensures
        kn <= km,
{
    if km < kn {
        lemma_domain_size_monotone(km, (kn - 1) as nat);
    }
}

/// The log size of a trace of `max_size` rows: `2^r` is the smallest power of two
/// that is at least `N_LANES` and holds `max_size` rows.
pub fn calculate_log_size(max_size: usize) -> (r: u32)
    requires
        max_size <= usize::MAX / 2,
    ensures
        is_log_size_of(max_size as nat, r as nat),
        domain_size(r as nat) <= usize::MAX,
{
    let mut k: u32 = LOG_N_LANES;
    let mut size: usize = N_LANES;
    proof {
        reveal_with_fuel(domain_size, 5);
        lemma_domain_size_64();
    }
    while size < max_size
        invariant
            LOG_N_LANES <= k < 64,
            size as nat == domain_size(k as nat),
            size >= N_LANES,
            k == LOG_N_LANES || domain_size((k - 1) as nat) < max_size,
            max_size <= usize::MAX / 2,
            domain_size(64) == 0x1_0000_0000_0000_0000,
        decreases 2 * max_size - size,
    {
        size = size * 2;
        k = k + 1;
        proof {
            if k >= 64 {
                lemma_domain_size_monotone(64, k as nat);
            }
        }
    }
    k
}

/// Log sizes of the `is_first` preprocessed columns, from `max_log_size + 2` down to 4.
pub fn get_is_first_log_sizes(max_log_size: u32) -> (r: Vec<u32>)
    requires
        max_log_size <= u32::MAX - 2,
    ensures
        r@.len() == if max_log_size + 2 >= 4 { max_log_size + 2 - 3 } else { 0 },
        forall|i: int| 0 <= i < r@.len() ==> r@[i] == max_log_size + 2 - i,
{
    let padded_max: u32 = max_log_size + 2;
    let mut r: Vec<u32> = Vec::new();
    let mut v: u32 = padded_max;
    while v >= 4
        invariant
            padded_max == max_log_size + 2,
            v <= padded_max,
            r@.len() == padded_max - v,
            forall|i: int| 0 <= i < r@.len() ==> r@[i] == padded_max - i,
            padded_max < 4 ==> v == padded_max,
            padded_max >= 4 ==> v >= 3,
        decreases v,
    {
        r.push(v);
        v = v - 1;
    }
    r
}

} // verus!
