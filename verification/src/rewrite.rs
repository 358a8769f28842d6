//! The rewritable protocol: every field type can be rebuilt under a
//! rewriter.
//!
//! Primitives and strings rewrite to themselves; options and sequences
//! rewrite each element.  A handle to an interned node dispatches to the
//! rewriter's hook for that node type — those implementations live beside
//! the node types, since the hooks are per-schema.

use vstd::prelude::*;

verus! {

pub trait HirpdagRewritable<T>: Sized {
    fn hirpdag_rewrite(&self, rewriter: &mut T) -> Self;
}

impl<T> HirpdagRewritable<T> for i32 {
    fn hirpdag_rewrite(&self, rewriter: &mut T) -> (r: Self)
        ensures
            r == *self,
            *final(rewriter) == *old(rewriter),
    {
        *self
    }
}

impl<T> HirpdagRewritable<T> for u32 {
    fn hirpdag_rewrite(&self, rewriter: &mut T) -> (r: Self)
        ensures
            r == *self,
            *final(rewriter) == *old(rewriter),
    {
        *self
    }
}

impl<T> HirpdagRewritable<T> for String {
    fn hirpdag_rewrite(&self, rewriter: &mut T) -> (r: Self)
        ensures
            r@ == self@,
            *final(rewriter) == *old(rewriter),
    {
        self.clone()
    }
}

impl<T, D: HirpdagRewritable<T>> HirpdagRewritable<T> for Option<D> {
    fn hirpdag_rewrite(&self, rewriter: &mut T) -> (r: Self)
        ensures
            r is Some <==> *self is Some,
    {
        match self {
            Some(x) => Some(x.hirpdag_rewrite(rewriter)),
            None => None,
        }
    }
}

impl<T, D: HirpdagRewritable<T>> HirpdagRewritable<T> for Vec<D> {
    fn hirpdag_rewrite(&self, rewriter: &mut T) -> (r: Self)
        ensures
            r@.len() == self@.len(),
    {
        let mut out: Vec<D> = Vec::new();
        let mut i: usize = 0;
        while i < self.len()
            invariant
                i <= self@.len(),
                out@.len() == i,
            decreases self@.len() - i,
        {
            out.push(self[i].hirpdag_rewrite(rewriter));
            i = i + 1;
        }
        out
    }
}

} // verus!
