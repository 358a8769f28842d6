//! The protocol a value must satisfy to be interned.
//!
//! A table compares probe values against stored values with `eq_data` and
//! routes them by `hash_data`.  Both are pinned to spec-level functions:
//! `eq_data` decides the equivalence `eqv` (structural equality, with handle
//! fields compared by identity), and `hash_data` computes `hash_spec`, which
//! must be constant across each `eqv` class.  `valid` is the invariant that
//! the creation callback establishes before a new cell is published; every
//! handle a table gives out refers to a value satisfying it.

use vstd::prelude::*;

verus! {

/// Mix one more field's contribution into a running hash.  Any injective
/// enough mixing does; what matters is only that it is a function of its
/// arguments, so equivalent values hash equally.
pub open spec fn hash_combine_spec(h: u64, x: u64) -> u64 {
    ((h << 5) | (h >> 59)) ^ x
}

pub fn hash_combine(h: u64, x: u64) -> (r: u64)
    ensures
        r == hash_combine_spec(h, x),
{
    ((h << 5) | (h >> 59)) ^ x
}

pub trait InternData: Sized {
    /// Structural equivalence of two values, the table's notion of "the same
    /// node".
    spec fn eqv(&self, other: &Self) -> bool;

    /// The hash a value advertises; equal under `eqv`.
    spec fn hash_spec(&self) -> u64;

    /// What finalization (the creation callback) establishes for every
    /// stored value.
    spec fn valid(&self) -> bool;

    proof fn lemma_eqv_refl(&self)
        ensures
            self.eqv(self),
    ;

    proof fn lemma_eqv_sym(&self, other: &Self)
        ensures
            self.eqv(other) == other.eqv(self),
    ;

    proof fn lemma_eqv_trans(&self, b: &Self, c: &Self)
        requires
            self.eqv(b),
            b.eqv(c),
        ensures
            self.eqv(c),
    ;

    proof fn lemma_eqv_hash(&self, other: &Self)
        requires
            self.eqv(other),
        ensures
            self.hash_spec() == other.hash_spec(),
    ;

    fn eq_data(&self, other: &Self) -> (r: bool)
        ensures
            r == self.eqv(other),
    ;

    fn hash_data(&self) -> (h: u64)
        ensures
            h == self.hash_spec(),
    ;
}

} // verus!
