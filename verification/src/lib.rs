//! A single stateful counter: created at zero, advanced only by unit
//! increments, and read back without side effects.
//!
//! The host-facing binding layer that registers the type with a foreign
//! runtime is deliberately kept outside the verified library; the library
//! itself is the counter and its contracts.

use vstd::prelude::*;

verus! {

/// A counter holding one signed value.
///
/// The value starts at zero and only ever changes by exactly `+1` per
/// [`Counter::increment`] call; no other mutation path exists.
pub struct Counter {
    count: i32,
}

impl Counter {
    /// The mathematical value of the counter.
    pub closed spec fn spec_count(&self) -> int {
        self.count as int
    }

    /// Creates a fresh counter with its value at zero.
    pub fn new() -> (c: Counter)
        ensures
            c.spec_count() == 0,
    {
        Counter { count: 0 }
    }

    /// Adds exactly one to the counter.
    ///
    /// The value must be below `i32::MAX`: overflow is a caller-side
    /// obligation here, rather than being left to a platform default.
    pub fn increment(&mut self)
        requires
            old(self).spec_count() < i32::MAX,
        ensures
            final(self).spec_count() == old(self).spec_count() + 1,
    {
        self.count = self.count + 1;
    }

    /// Reads the current value without changing it.
    pub fn get_count(&self) -> (n: i32)
        ensures
            n as int == self.spec_count(),
    {
        self.count
    }
}

/// Independence: advancing one counter leaves every other counter untouched.
/// The two receivers are necessarily distinct instances, so the second one
/// keeps its value exactly.
pub fn increment_only_first(a: &mut Counter, b: &mut Counter)
    requires
        old(a).spec_count() < i32::MAX,
    ensures
        final(a).spec_count() == old(a).spec_count() + 1,
        *final(b) == *old(b),
{
    a.increment();
}

/// Initialization: reading a freshly constructed counter yields zero.
/// Any result that `get_count` may return for a counter at zero is zero.
pub proof fn lemma_fresh_counter_reads_zero(c: Counter, n: i32)
    requires
        c.spec_count() == 0,
        n as int == c.spec_count(),
    ensures
        n == 0,
{
}

/// Single increment: one unit step away from a fresh counter lands on one.
pub proof fn lemma_single_increment(fresh: Counter, stepped: Counter)
    requires
        fresh.spec_count() == 0,
        stepped.spec_count() == fresh.spec_count() + 1,
    ensures
        stepped.spec_count() == 1,
{
}

/// Chained increments: a counter that starts at zero and undergoes one unit
/// step between each pair of adjacent states holds, in the last state, the
/// number of steps taken.
pub proof fn lemma_n_increments(states: Seq<Counter>)
    requires
        states.len() > 0,
        states.first().spec_count() == 0,
        forall|i: int|
            0 <= i < states.len() - 1 ==> #[trigger] states[i + 1].spec_count() == states[
                i
            ].spec_count() + 1,
    ensures
        states.last().spec_count() == states.len() - 1,
    decreases states.len(),
{
    if states.len() > 1 {
        let front = states.drop_last();
        assert(front.first() == states.first());
        assert forall|i: int| 0 <= i < front.len() - 1 implies #[trigger] front[
            i + 1
        ].spec_count() == front[i].spec_count() + 1 by {
            assert(front[i + 1] == states[i + 1]);
            assert(front[i] == states[i]);
        }
        lemma_n_increments(front);
        assert(states.last().spec_count() == front.last().spec_count() + 1);
    }
}

/// Idempotence of reads: two results of `get_count` on the same counter,
/// with no increment between them, are equal.
pub proof fn lemma_reads_agree(c: Counter, n1: i32, n2: i32)
    requires
        n1 as int == c.spec_count(),
        n2 as int == c.spec_count(),
    ensures
        n1 == n2,
{
}

} // verus!
