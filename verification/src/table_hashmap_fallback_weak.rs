//! Intern table keyed by the raw hash value, with a nested fallback table.
//!
//! The primary map holds one weak entry per hash; anything more — a
//! collision, or a slot whose occupant is alive but different — goes to the
//! fallback table.  A decayed occupant counts as vacancy and is overwritten
//! once the fallback has been ruled out.

use vstd::prelude::*;

use crate::data::InternData;
use crate::reference::Reference;
use crate::reference::ReferenceWeak;
use crate::table::EntryModel;
use crate::table::Table;

verus! {

broadcast use vstd::std_specs::hash::group_hash_axioms;

pub struct TableHashmapFallbackWeak<D, R, RW, T> {
    m: std::collections::HashMap<u64, RW>,
    fallback: T,
    phantom_d: core::marker::PhantomData<D>,
    phantom_r: core::marker::PhantomData<R>,
}

impl<D, R, RW, T> TableHashmapFallbackWeak<D, R, RW, T> where
    D: InternData,
    R: Reference<D>,
    RW: ReferenceWeak<D, R>,
    T: Table<D, R>,
 {
    pub closed spec fn slots_wf(&self) -> bool {
        forall|k: u64| self.m@.contains_key(k) ==> (#[trigger] self.m@[k]).origin_data().valid()
            && self.m@[k].origin_data().hash_spec() == k
    }

    /// The primary map's entries: at most one per hash value.
    pub closed spec fn slots(&self) -> Map<u64, EntryModel<D>> {
        Map::new(
            |k: u64| self.m@.contains_key(k),
            |k: u64|
                EntryModel { hash: k, id: self.m@[k].origin_id(), data: self.m@[k].origin_data() },
        )
    }

    /// The nested table absorbing collisions.
    pub closed spec fn fallback_tier(&self) -> T {
        self.fallback
    }
}

impl<D, R, RW, T> Table<D, R> for TableHashmapFallbackWeak<D, R, RW, T> where
    D: InternData,
    R: Reference<D>,
    RW: ReferenceWeak<D, R>,
    T: Table<D, R>,
 {
    closed spec fn wf(&self) -> bool {
        self.slots_wf() && self.fallback.wf()
    }

    fn empty() -> (t: Self) {
        Self {
            m: std::collections::HashMap::new(),
            fallback: T::empty(),
            phantom_d: core::marker::PhantomData,
            phantom_r: core::marker::PhantomData,
        }
    }

    fn get(&self, hash: u64, data: &D) -> (r: Option<R>) {
        if let Some(v) = self.m.get(&hash) {
            if let Some(up) = RW::weak_upgrade(v) {
                if R::strong_deref(&up).eq_data(data) {
                    return Some(up);
                }
            }
        }
        self.fallback.get(hash, data)
    }

    fn get_or_insert<CF: FnOnce(D) -> D>(&mut self, hash: u64, data: D, creation_meta: CF) -> (r:
        R)
        ensures
            // the probe hit the primary slot: nothing changed, and the
            // result is the very cell that slot records
            (*final(self) == *old(self) && old(self).slots().contains_key(hash) && old(
                self,
            ).slots()[hash] == (EntryModel { hash, id: r.id(), data: r.data() }))
            // or the fallback tier answered or took the operation: the
            // primary slots are unchanged
             || final(self).slots() == old(self).slots()
            // or this value's slot now records the fresh finalized cell
            // (overwriting a decayed occupant, if any) and the fallback
            // tier is untouched
             || (final(self).slots() == old(self).slots().insert(
                hash,
                (EntryModel { hash, id: r.id(), data: r.data() }),
            ) && final(self).fallback_tier() == old(self).fallback_tier() && call_ensures(
                creation_meta,
                (data,),
                r.data(),
            )),
    {
        let mut has_vacancy = false;
        match self.m.get(&hash) {
            None => {
                has_vacancy = true;
            },
            Some(v) => {
                if let Some(up) = RW::weak_upgrade(v) {
                    if R::strong_deref(&up).eq_data(&data) {
                        return up;
                    }
                } else {
                    has_vacancy = true;
                }
            },
        }
        if has_vacancy {
            // The slot is free or its occupant has decayed: the value may
            // still live in the fallback tier from an earlier collision.
            if let Some(fobj) = self.fallback.get(hash, &data) {
                return fobj;
            }
            let ghost probe = data;
            let finalized = creation_meta(data);
            proof {
                finalized.lemma_eqv_hash(&probe);
            }
            let obj = R::new(finalized);
            let weak = RW::weak_downgrade(&obj);
            self.m.insert(hash, weak);
            proof {
                assert(final(self).slots() =~= old(self).slots().insert(
                    hash,
                    (EntryModel { hash, id: obj.id(), data: obj.data() }),
                ));
            }
            obj
        } else {
            // The slot is taken by a live different value: delegate wholly
            // to the fallback tier.
            self.fallback.get_or_insert(hash, data, creation_meta)
        }
    }
}

impl<D, R, RW, T> Default for TableHashmapFallbackWeak<D, R, RW, T> where
    D: InternData,
    R: Reference<D>,
    RW: ReferenceWeak<D, R>,
    T: Table<D, R>,
 {
    fn default() -> (t: Self)
        ensures
            t.wf(),
    {
        Self::empty()
    }
}

} // verus!
