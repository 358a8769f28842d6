//! Intern table over an unordered sequence of weak entries.
//!
//! Lookup is a linear scan filtering by hash and then by
//! upgrade-and-compare; insertion appends.  Suitable for small tables and
//! as a collision fallback tier.

use vstd::prelude::*;

use crate::data::InternData;
use crate::reference::Reference;
use crate::reference::ReferenceWeak;
use crate::table::EntryModel;
use crate::table::Table;
use crate::weak_entry::WeakEntry;

verus! {

pub struct TableVecLinearWeak<D, R, RW> {
    v: Vec<WeakEntry<D, R, RW>>,
}

impl<D, R, RW> TableVecLinearWeak<D, R, RW> where
    D: InternData,
    R: Reference<D>,
    RW: ReferenceWeak<D, R>,
 {
    pub closed spec fn entries_wf(&self) -> bool {
        forall|i: int| 0 <= i < self.v@.len() ==> (#[trigger] self.v@[i]).origin_data().valid()
            && self.v@[i].stored_hash() == self.v@[i].origin_data().hash_spec()
    }

    /// The recorded entries, oldest first.
    pub closed spec fn entries(&self) -> Seq<EntryModel<D>> {
        self.v@.map_values(|e: WeakEntry<D, R, RW>| e.model())
    }
}

impl<D, R, RW> Table<D, R> for TableVecLinearWeak<D, R, RW> where
    D: InternData,
    R: Reference<D>,
    RW: ReferenceWeak<D, R>,
 {
    closed spec fn wf(&self) -> bool {
        self.entries_wf()
    }

    fn empty() -> (t: Self) {
        Self { v: Vec::new() }
    }

    fn get(&self, hash: u64, data: &D) -> (r: Option<R>)
        ensures
            r matches Some(p) ==> exists|i: int|
                0 <= i < self.entries().len() && self.entries()[i] == (EntryModel {
                    hash,
                    id: p.id(),
                    data: p.data(),
                }),
    {
        let mut i: usize = 0;
        while i < self.v.len()
            invariant
                self.wf(),
                i <= self.v@.len(),
            decreases self.v@.len() - i,
        {
            if let Some(p) = self.v[i].get(hash, data) {
                proof {
                    assert(self.entries()[i as int] == (EntryModel {
                        hash,
                        id: p.id(),
                        data: p.data(),
                    }));
                }
                return Some(p);
            }
            i = i + 1;
        }
        None
    }

    fn get_or_insert<CF: FnOnce(D) -> D>(&mut self, hash: u64, data: D, creation_meta: CF) -> (r:
        R)
        ensures
            (final(self).entries() == old(self).entries() && (exists|i: int|
                0 <= i < old(self).entries().len() && old(self).entries()[i] == (EntryModel {
                    hash,
                    id: r.id(),
                    data: r.data(),
                }))) || (final(self).entries() == old(self).entries().push(
                (EntryModel { hash, id: r.id(), data: r.data() }),
            ) && call_ensures(creation_meta, (data,), r.data())),
    {
        if let Some(existing_obj) = self.get(hash, &data) {
            return existing_obj;
        }
        let ghost probe = data;
        let finalized = creation_meta(data);
        proof {
            finalized.lemma_eqv_hash(&probe);
        }
        let obj = R::new(finalized);
        let weak = RW::weak_downgrade(&obj);
        self.v.push(WeakEntry::new(hash, weak));
        proof {
            assert(final(self).entries() =~= old(self).entries().push(
                (EntryModel { hash, id: obj.id(), data: obj.data() }),
            ));
        }
        obj
    }
}

impl<D, R, RW> Default for TableVecLinearWeak<D, R, RW> where
    D: InternData,
    R: Reference<D>,
    RW: ReferenceWeak<D, R>,
 {
    fn default() -> (t: Self)
        ensures
            t.wf(),
    {
        Self { v: Vec::new() }
    }
}

} // verus!
