//! The per-node-type cache behind a memoized rewriter.
//!
//! It maps input handles to output handles, keyed by handle identity.  A
//! lookup answers from the earliest entry whose key is the probe handle —
//! the one recorded the first time the handle was rewritten — and only a
//! probe matching no key misses, so memoized rewriting is unambiguous.

use vstd::prelude::*;

use crate::hashcons::handle_same;
use crate::hashcons::HirpdagRef;
use crate::hashcons::HirpdagStorage;
use crate::hashcons::HirpdagStruct;
use crate::reference::Reference;

verus! {

pub struct RewriteCache<D: HirpdagStruct, R: Reference<HirpdagStorage<D>>> {
    entries: Vec<(HirpdagRef<D, R>, HirpdagRef<D, R>)>,
}

impl<D, R> RewriteCache<D, R> where D: HirpdagStruct, R: Reference<HirpdagStorage<D>> {
    /// The recorded pairs, in insertion order.
    pub closed spec fn view(&self) -> Seq<(HirpdagRef<D, R>, HirpdagRef<D, R>)> {
        self.entries@
    }

    /// Some recorded key is this handle.
    pub open spec fn contains_key(&self, x: HirpdagRef<D, R>) -> bool {
        exists|i: int| 0 <= i < self@.len() && handle_same(self@[i].0, x)
    }

    /// `i` is the earliest entry whose key is this handle: the one a
    /// lookup answers from.
    pub open spec fn first_match(&self, x: HirpdagRef<D, R>, i: int) -> bool {
        &&& 0 <= i < self@.len()
        &&& handle_same(self@[i].0, x)
        &&& forall|j: int| 0 <= j < i ==> !handle_same(self@[j].0, x)
    }

    pub fn new() -> (c: Self)
        ensures
            c@ =~= Seq::<(HirpdagRef<D, R>, HirpdagRef<D, R>)>::empty(),
    {
        RewriteCache { entries: Vec::new() }
    }

    /// Look the handle up by identity.  A hit returns (a clone of) the
    /// output recorded for it; a miss means no recorded key is this handle.
    pub fn get(&self, x: &HirpdagRef<D, R>) -> (r: Option<HirpdagRef<D, R>>)
        ensures
            match r {
                Some(y) => exists|i: int| self.first_match(*x, i) && handle_same(self@[i].1, y),
                None => !self.contains_key(*x),
            },
    {
        let mut i: usize = 0;
        while i < self.entries.len()
            invariant
                i <= self@.len(),
                forall|j: int| 0 <= j < i ==> !handle_same(self@[j].0, *x),
            decreases self@.len() - i,
        {
            if HirpdagRef::ptr_eq(&self.entries[i].0, x) {
                let y = self.entries[i].1.clone();
                proof {
                    assert(self.first_match(*x, i as int) && handle_same(self@[i as int].1, y));
                }
                return Some(y);
            }
            i = i + 1;
        }
        None
    }

    /// Memoization is unambiguous: one handle has one earliest entry, so
    /// any two lookups of it are answered from the same recorded output
    /// and return handles of one cell.
    pub proof fn lemma_memo_idempotent(
        &self,
        x: HirpdagRef<D, R>,
        y1: HirpdagRef<D, R>,
        y2: HirpdagRef<D, R>,
    )
        requires
            exists|i: int| self.first_match(x, i) && handle_same(self@[i].1, y1),
            exists|i: int| self.first_match(x, i) && handle_same(self@[i].1, y2),
        ensures
            handle_same(y1, y2),
    {
        let i1 = choose|i: int| self.first_match(x, i) && handle_same(self@[i].1, y1);
        let i2 = choose|i: int| self.first_match(x, i) && handle_same(self@[i].1, y2);
        assert(i1 == i2);
    }

    /// Record the output for a handle.  A lookup returns the earliest
    /// recorded output for a key, so recording happens once per key: on the
    /// first rewrite of it.
    pub fn insert(&mut self, key: HirpdagRef<D, R>, value: HirpdagRef<D, R>)
        ensures
            final(self)@ == old(self)@.push((key, value)),
    {
        self.entries.push((key, value));
    }
}

} // verus!
