//! Intern table held as a weak-keyed hash set (the weak_table crate).
//!
//! The set stores one weak observer per element and recomputes hashes
//! itself, from the element type's std `Hash`; keys compare with its std
//! `Eq`.  Neither is anything the verifier reads, so the set only
//! proposes a candidate: the table re-checks the candidate with the
//! protocol's own `eq_data` and treats a mismatch as a miss.  It works
//! with the atomic reference handle, whose raw pointer the set observes,
//! and is incompatible with the leaking reference variant, whose weak
//! handles never decay; decayed entries the set prunes itself.

use vstd::prelude::*;

use crate::data::InternData;
use crate::reference::Reference;
use crate::reference_arc::arc_ref_from_live;
use crate::reference_arc::arc_ref_inner;
use crate::reference_arc::RefArc;
use crate::table::Table;

verus! {

/// Holds the raw weak-keyed set, which the verifier sees as opaque.
#[verifier::external_body]
#[verifier::reject_recursive_types(D)]
struct WeakSetCell<D: core::hash::Hash + core::cmp::Eq> {
    m: weak_table::WeakHashSet<std::sync::Weak<D>>,
}

/// Relies on `weak_table::WeakHashSet::new`.
#[verifier::external_body]
fn weak_set_new<D: core::hash::Hash + core::cmp::Eq>() -> (c: WeakSetCell<D>) {
    WeakSetCell { m: weak_table::WeakHashSet::new() }
}

/// Relies on `weak_table::WeakHashSet::get`: a hit upgrades a stored live
/// element — which element, the set decides by `D`'s std hashing and
/// equality, of which nothing is known here; the callers re-check
/// structural equality themselves.  Only `weak_set_insert` below files
/// elements, always finalized ones, so whatever is handed back is
/// finalized.  A decayed entry counts as absent.
#[verifier::external_body]
fn weak_set_get<D: InternData + core::hash::Hash + core::cmp::Eq>(
    c: &WeakSetCell<D>,
    data: &D,
) -> (r: Option<RefArc<D>>)
    ensures
        r matches Some(p) ==> p.data().valid(),
{
    c.m.get(data).map(arc_ref_from_live)
}

/// Relies on `weak_table::WeakHashSet::insert`: files a weak observer of
/// the given cell, replacing any entry the set holds under an equal key,
/// live or decayed.
#[verifier::external_body]
fn weak_set_insert<D: core::hash::Hash + core::cmp::Eq>(
    c: &mut WeakSetCell<D>,
    obj: std::sync::Arc<D>,
) {
    c.m.insert(obj);
}

#[verifier::reject_recursive_types(D)]
pub struct TableTovWeakTable<D: core::hash::Hash + core::cmp::Eq> {
    m: WeakSetCell<D>,
}

impl<D> Table<D, RefArc<D>> for TableTovWeakTable<D> where
    D: InternData + core::hash::Hash + core::cmp::Eq,
 {
    /// The set keeps its own invariants; nothing is tracked here.
    closed spec fn wf(&self) -> bool {
        true
    }

    fn empty() -> (t: Self) {
        TableTovWeakTable { m: weak_set_new() }
    }

    /// The passed hash is unused: the set recomputes hashes itself.  The
    /// probe's structural equality is decided here, by the verified
    /// `eq_data`, not taken from the set.
    fn get(&self, hash: u64, data: &D) -> (r: Option<RefArc<D>>) {
        if let Some(p) = weak_set_get(&self.m, data) {
            if RefArc::strong_deref(&p).eq_data(data) {
                return Some(p);
            }
        }
        None
    }

    fn get_or_insert<CF: FnOnce(D) -> D>(&mut self, hash: u64, data: D, creation_meta: CF) -> (r:
        RefArc<D>)
        ensures
            *final(self) == *old(self) || call_ensures(creation_meta, (data,), r.data()),
    {
        if let Some(p) = weak_set_get(&self.m, &data) {
            if RefArc::strong_deref(&p).eq_data(&data) {
                return p;
            }
        }
        let finalized = creation_meta(data);
        let obj = RefArc::new(finalized);
        weak_set_insert(&mut self.m, arc_ref_inner(&obj).clone());
        obj
    }
}

impl<D> Default for TableTovWeakTable<D> where D: InternData + core::hash::Hash + core::cmp::Eq {
    fn default() -> (t: Self)
        ensures
            t.wf(),
    {
        TableTovWeakTable { m: weak_set_new() }
    }
}

} // verus!
