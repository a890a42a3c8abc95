//! An instrumented model of the native allocator for one value type.
//!
//! [`NativeHeap`] keeps every allocation ever made in a slot vector: address
//! `p` is slot `p - 1`, address zero is the null address and never allocated.
//! Freeing empties the slot and moves an observable counter up, so a test can
//! check how often `free` ran, as an instrumented manager for a native type
//! would by counting calls.  The counter equals the number of emptied slots
//! at all times; that bookkeeping identity is the type's invariant and is
//! what makes the counter arithmetic provably free of overflow.

use vstd::prelude::*;
use vstd::pervasive::VecAdditionalExecFns;
use crate::boxed::BoxedMemoryManager;

verus! {

/// Number of emptied (freed) slots in a slot sequence.
spec fn dead_count<T>(s: Seq<Option<T>>) -> nat
    decreases s.len(),
{
    if s.len() == 0 {
        0
    } else {
        dead_count(s.drop_last()) + if s.last() is None { 1nat } else { 0nat }
    }
}

proof fn lemma_dead_count_le<T>(s: Seq<Option<T>>)
    ensures
        dead_count(s) <= s.len(),
    decreases s.len(),
{
    if s.len() > 0 {
        lemma_dead_count_le(s.drop_last());
    }
}

proof fn lemma_dead_count_push<T>(s: Seq<Option<T>>, x: Option<T>)
    ensures
        dead_count(s.push(x)) == dead_count(s) + if x is None { 1nat } else { 0nat },
{
    assert(s.push(x).drop_last() =~= s);
    assert(s.push(x).last() == x);
}

proof fn lemma_dead_count_update<T>(s: Seq<Option<T>>, i: int, x: Option<T>)
    requires
        0 <= i < s.len(),
    ensures
        dead_count(s.update(i, x)) + (if s[i] is None { 1nat } else { 0nat })
            == dead_count(s) + (if x is None { 1nat } else { 0nat }),
    decreases s.len(),
{
    let t = s.update(i, x);
    if i == s.len() - 1 {
        assert(t.drop_last() =~= s.drop_last());
        assert(t.last() == x);
    } else {
        assert(t.drop_last() =~= s.drop_last().update(i, x));
        assert(t.last() == s.last());
        lemma_dead_count_update(s.drop_last(), i, x);
        assert(s.drop_last()[i] == s[i]);
    }
}

proof fn lemma_dead_count_lt<T>(s: Seq<Option<T>>, i: int)
    requires
        0 <= i < s.len(),
        s[i] is Some,
    ensures
        dead_count(s) < s.len(),
{
    lemma_dead_count_update(s, i, None);
    lemma_dead_count_le(s.update(i, None));
    assert(s.update(i, None).len() == s.len());
}

/// The allocator model: every allocation lives in a slot, freed slots stay
/// empty forever, and `free_calls` counts the frees.
pub struct NativeHeap<T: Copy> {
    slots: Vec<Option<T>>,
    zero_value: T,
    free_calls: usize,
}

impl<T: Copy> NativeHeap<T> {
    /// A fresh allocator with nothing allocated.  `zero_value` is the
    /// contents that zero-filled allocations of this value type start with.
    pub fn new(zero_value: T) -> (h: Self)
        ensures
            h.inv(),
            h.frees() == 0,
            h.zero() == zero_value,
            forall|p: usize| !(#[trigger] h.live(p)),
    {
        NativeHeap { slots: Vec::new(), zero_value, free_calls: 0 }
    }

    /// Allocates a value with the given contents and returns its nonzero
    /// address, the way a native constructor hands out a fresh owned value.
    pub fn allocate(&mut self, v: T) -> (p: usize)
        requires
            old(self).inv(),
        ensures
            final(self).inv(),
            p != 0,
            !old(self).live(p),
            final(self).live(p),
            final(self).value_at(p) == v,
            final(self).frees() == old(self).frees(),
            final(self).zero() == old(self).zero(),
            forall|r: usize| #![trigger final(self).live(r)] #![trigger old(self).live(r)]
                r != p ==> (final(self).live(r) <==> old(self).live(r)),
            forall|r: usize| #![trigger final(self).value_at(r)]
                r != p && old(self).live(r) ==> final(self).value_at(r) == old(self).value_at(r),
    {
        proof {
            lemma_dead_count_push(self.slots@, Some(v));
        }
        self.slots.push(Some(v));
        self.slots.len()
    }
}

impl<T: Copy> BoxedMemoryManager<T> for NativeHeap<T> {
    closed spec fn inv(&self) -> bool {
        self.free_calls as nat == dead_count(self.slots@)
    }

    closed spec fn live(&self, p: usize) -> bool {
        1 <= p <= self.slots@.len() && self.slots@[p - 1] is Some
    }

    closed spec fn value_at(&self, p: usize) -> T {
        self.slots@[p - 1].unwrap()
    }

    closed spec fn frees(&self) -> nat {
        self.free_calls as nat
    }

    closed spec fn zero(&self) -> T {
        self.zero_value
    }

    proof fn null_never_live(&self) {
    }

    fn alloc_zeroed(&mut self) -> (p: usize) {
        let z = self.zero_value;
        proof {
            lemma_dead_count_push(self.slots@, Some(z));
        }
        self.slots.push(Some(z));
        self.slots.len()
    }

    fn copy(&mut self, p: usize) -> (q: usize) {
        let v = self.read(p);
        proof {
            lemma_dead_count_push(self.slots@, Some(v));
        }
        self.slots.push(Some(v));
        self.slots.len()
    }

    fn free(&mut self, p: usize) {
        proof {
            lemma_dead_count_lt(self.slots@, p - 1);
            lemma_dead_count_update(self.slots@, p - 1, None);
        }
        self.slots.set(p - 1, None);
        self.free_calls = self.free_calls + 1;
    }

    fn read(&self, p: usize) -> (v: T) {
        let entry = self.slots[p - 1];
        entry.unwrap()
    }

    fn write(&mut self, p: usize, v: T) {
        proof {
            lemma_dead_count_update(self.slots@, p - 1, Some(v));
        }
        self.slots.set(p - 1, Some(v));
    }

    fn free_count(&self) -> (n: usize) {
        self.free_calls
    }
}

} // verus!

