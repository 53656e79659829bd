//! Lock-free multiplicity counters for lookup tables.
use vstd::prelude::*;
use std::sync::atomic::{AtomicU32, Ordering};

verus! {

/// The count that an atomic counter holds. Every counter of this module lives in
/// a private field and changes only through an exclusive borrow, so the count is a
/// function of the counter as the verifier sees it.
pub uninterp spec fn counter_value(a: AtomicU32) -> u32;

/// A counter after one increment; `fetch_add` wraps around on overflow.
pub open spec fn bumped(v: u32) -> u32 {
    if v == u32::MAX {
        0
    } else {
        (v + 1) as u32
    }
}

/// Relies on `AtomicU32::new`: the new atomic holds `v`.
#[verifier::external_body]
fn new_counter(v: u32) -> (r: AtomicU32)
    ensures
        counter_value(r) == v,
{
    AtomicU32::new(v)
}

/// Relies on `AtomicU32::load`: it returns the count that the counter holds.
#[verifier::external_body]
fn load_counter(a: &AtomicU32) -> (r: u32)
    ensures
        r == counter_value(*a),
{
    a.load(Ordering::Relaxed)
}

/// Relies on `AtomicU32::fetch_add` by one: the counter goes up by one, wrapping
/// around on overflow.
#[verifier::external_body]
fn bump_counter(a: &mut AtomicU32)
    ensures
        counter_value(*final(a)) == bumped(counter_value(*old(a))),
{
    a.fetch_add(1, Ordering::Relaxed);
}

/// A column of multiplicities for a lookup table, one atomic counter per table
/// row. The counters are private: they change only through `increase_at`, so the
/// counts that the contracts state are the counts held.
#[derive(Debug, Default)]
pub struct AtomicMultiplicityColumn {
    data: Vec<AtomicU32>,
}

impl AtomicMultiplicityColumn {
    /// The counts, row by row.
    pub closed spec fn view(&self) -> Seq<u32> {
        self.data@.map_values(|a: AtomicU32| counter_value(a))
    }

    /// Creates a column of `size` counters, all zero.
    pub fn new(size: u32) -> (r: Self)
        ensures
            r@ == Seq::new(size as nat, |i: int| 0u32),
    {
        let mut data: Vec<AtomicU32> = Vec::new();
        let mut i: u32 = 0;
        while i < size
            invariant
                i <= size,
                data@.len() == i,
                forall|j: int| 0 <= j < i ==> counter_value(#[trigger] data@[j]) == 0,
            decreases size - i,
        {
            data.push(new_counter(0));
            i = i + 1;
        }
        let r = AtomicMultiplicityColumn { data };
        assert(r@ =~= Seq::new(size as nat, |i: int| 0u32));
        r
    }

    /// Increments the counter of row `address` by one.
    pub fn increase_at(&mut self, address: usize)
        requires
            address < old(self)@.len(),
        ensures
            final(self)@ == old(self)@.update(address as int, bumped(old(self)@[address as int])),
    {
        bump_counter(&mut self.data[address]);
        assert(self@ =~= old(self)@.update(address as int, bumped(old(self)@[address as int])));
    }

    /// The number of counters.
    pub fn len(&self) -> (r: usize)
        ensures
            r == self@.len(),
    {
        self.data.len()
    }

    /// Whether the column has no counter.
    pub fn is_empty(&self) -> (r: bool)
        ensures
            r == (self@.len() == 0),
    {
        self.data.len() == 0
    }

    /// The counts as plain integers.
    pub fn snapshot(&self) -> (r: Vec<u32>)
        ensures
            r@ == self@,
    {
        let mut r: Vec<u32> = Vec::with_capacity(self.data.len());
        let mut i: usize = 0;
        while i < self.data.len()
            invariant
                i <= self.data@.len(),
                r@.len() == i,
                forall|j: int| 0 <= j < i ==> #[trigger] r@[j] == counter_value(self.data@[j]),
            decreases self.data@.len() - i,
        {
            r.push(load_counter(&self.data[i]));
            i = i + 1;
        }
        assert(r@ =~= self@);
        r
    }

    /// A column of fresh counters that hold the given counts.
    pub fn from_counts(counts: &Vec<u32>) -> (r: Self)
        ensures
            r@ == counts@,
    {
        let mut data: Vec<AtomicU32> = Vec::with_capacity(counts.len());
        let mut i: usize = 0;
        while i < counts.len()
            invariant
                i <= counts@.len(),
                data@.len() == i,
                forall|j: int| 0 <= j < i ==> counter_value(#[trigger] data@[j]) == counts@[j],
            decreases counts@.len() - i,
        {
            data.push(new_counter(counts[i]));
            i = i + 1;
        }
        let r = AtomicMultiplicityColumn { data };
        assert(r@ =~= counts@);
        r
    }
}

impl Clone for AtomicMultiplicityColumn {
    /// An independent column holding the same counts.
    fn clone(&self) -> (r: Self)
        ensures
            r@ == self@,
    {
        let counts = self.snapshot();
        Self::from_counts(&counts)
    }
}

/// The counts after incrementing, one after another, the counters at `addresses`.
pub open spec fn after_increments(counts: Seq<u32>, addresses: Seq<int>) -> Seq<u32>
    decreases addresses.len(),
{
    if addresses.len() == 0 {
        counts
    } else {
        let prev = after_increments(counts, addresses.drop_last());
        let a = addresses.last();
        if 0 <= a < prev.len() {
            prev.update(a, bumped(prev[a]))
        } else {
            prev
        }
    }
}

/// How many of `addresses` are `i`.
pub open spec fn hits(addresses: Seq<int>, i: int) -> nat
    decreases addresses.len(),
{
    if addresses.len() == 0 {
        0
    } else {
        hits(addresses.drop_last(), i) + if addresses.last() == i { 1nat } else { 0nat }
    }
}

/// Whatever the order of the increments, every counter of a zeroed column ends at
/// the number of increments addressed to it (modulo `2^32`).
pub proof fn lemma_increments_count(size: nat, addresses: Seq<int>, i: int)
    requires
        0 <= i < size,
        forall|j: int| 0 <= j < addresses.len() ==> 0 <= #[trigger] addresses[j] < size,
    ensures
        after_increments(Seq::new(size, |k: int| 0u32), addresses).len() == size,
        after_increments(Seq::new(size, |k: int| 0u32), addresses)[i] == hits(addresses, i)
            % 0x1_0000_0000,
    decreases addresses.len(),
{
    if addresses.len() > 0 {
        let init = Seq::new(size, |k: int| 0u32);
        let rest = addresses.drop_last();
        assert forall|j: int| 0 <= j < rest.len() implies 0 <= #[trigger] rest[j] < size by {
            assert(rest[j] == addresses[j]);
        }
        lemma_increments_count(size, rest, i);
        lemma_increments_count(size, rest, addresses.last());
    }
}

} // verus!
