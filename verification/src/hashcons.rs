//! The interning façade: per-type storage cells, handles and tables.
//!
//! A storage cell pairs a user record with its folded metadata, computed
//! exactly once, inside the table, before the cell's handle is first given
//! out.  Every `HirpdagRef` therefore carries `meta_ok()`: the stored
//! metadata is the fold of the record's parts (`compute_meta_spec`).
//! Handles compare by identity; identical handles hold equal cells.

use vstd::prelude::*;

use crate::data::InternData;
use crate::meta::HirpdagComputeMeta;
use crate::meta::HirpdagMeta;
use crate::meta::HirpdagMetaFlagType;
use crate::reference::Reference;
use crate::table::BuildTableShared;
use crate::table::Table;
use crate::table::TableShared;

verus! {

/// The protocol of a generated fields-record.  Structural equivalence and
/// hashing come from `InternData` (handle fields compare by identity), the
/// metadata fold from `HirpdagComputeMeta`; a record adds only its node's
/// own flag bits.  For a record, `InternData::valid` is simply true: the
/// finalization invariant lives on the storage cell, not the record.
pub trait HirpdagStruct: InternData + HirpdagComputeMeta {
    /// The flag bits this node contributes to its metadata.
    spec fn flags_spec(&self) -> HirpdagMetaFlagType;

    fn hirpdag_flags(&self) -> (f: HirpdagMetaFlagType)
        ensures
            f == self.flags_spec(),
    ;
}

/// The heap cell an intern table stores: the record plus its metadata.
#[derive(Debug)]
pub struct HirpdagStorage<D> {
    pub hirpdag_meta: HirpdagMeta,
    pub hirpdag_data: D,
}

impl<D: HirpdagStruct> InternData for HirpdagStorage<D> {
    /// Cells are the same node exactly when their records are; the metadata
    /// is a function of the record and takes no part in equivalence.
    open spec fn eqv(&self, other: &Self) -> bool {
        self.hirpdag_data.eqv(&other.hirpdag_data)
    }

    open spec fn hash_spec(&self) -> u64 {
        self.hirpdag_data.hash_spec()
    }

    /// Finalization writes the fold of the record into the cell.
    open spec fn valid(&self) -> bool {
        self.hirpdag_meta == self.hirpdag_data.compute_meta_spec()
    }

    proof fn lemma_eqv_refl(&self) {
        self.hirpdag_data.lemma_eqv_refl();
    }

    proof fn lemma_eqv_sym(&self, other: &Self) {
        self.hirpdag_data.lemma_eqv_sym(&other.hirpdag_data);
    }

    proof fn lemma_eqv_trans(&self, b: &Self, c: &Self) {
        self.hirpdag_data.lemma_eqv_trans(&b.hirpdag_data, &c.hirpdag_data);
    }

    proof fn lemma_eqv_hash(&self, other: &Self) {
        self.hirpdag_data.lemma_eqv_hash(&other.hirpdag_data);
    }

    fn eq_data(&self, other: &Self) -> (r: bool) {
        self.hirpdag_data.eq_data(&other.hirpdag_data)
    }

    fn hash_data(&self) -> (h: u64) {
        self.hirpdag_data.hash_data()
    }
}

/// The two handles hold the same cell.
pub open spec fn handle_same<D, R: Reference<HirpdagStorage<D>>>(
    a: HirpdagRef<D, R>,
    b: HirpdagRef<D, R>,
) -> bool {
    a.id() == b.id() && a.storage() == b.storage()
}

/// Identity implies equality: two handles of the same cell — exactly the
/// pairs `ptr_eq` answers true for — see one record and one metadata.
pub proof fn lemma_identity_implies_equality<D, R: Reference<HirpdagStorage<D>>>(
    a: HirpdagRef<D, R>,
    b: HirpdagRef<D, R>,
)
    requires
        handle_same(a, b),
    ensures
        a.data() == b.data(),
        a.meta() == b.meta(),
{
}

/// A strong handle to an interned cell.
#[derive(Debug)]
pub struct HirpdagRef<D, R> {
    r: R,
    phantom: core::marker::PhantomData<D>,
}

impl<D, R> HirpdagRef<D, R> where R: Reference<HirpdagStorage<D>> {
    /// The identity of the cell this handle keeps alive.
    pub closed spec fn id(&self) -> int {
        self.r.id()
    }

    /// The whole cell: record and stored metadata.
    pub closed spec fn storage(&self) -> HirpdagStorage<D> {
        self.r.data()
    }

    /// The interned record.
    pub open spec fn data(&self) -> D {
        self.storage().hirpdag_data
    }

    /// The metadata stored beside the record.
    pub open spec fn meta(&self) -> HirpdagMeta {
        self.storage().hirpdag_meta
    }

    pub fn hirpdag_get_meta(&self) -> (m: &HirpdagMeta)
        ensures
            *m == self.meta(),
    {
        &R::strong_deref(&self.r).hirpdag_meta
    }

    /// A hash for the handle derived from its stored metadata: cheap,
    /// and constant across handles holding the same cell.
    pub open spec fn meta_hash_spec(&self) -> u64 {
        (self.meta().count as u64) | ((self.meta().height as u64) << 32) | ((
        self.meta().flags as u64) << 48)
    }

    pub fn meta_hash(&self) -> (h: u64)
        ensures
            h == self.meta_hash_spec(),
    {
        let m = self.hirpdag_get_meta();
        (m.get_count() as u64) | ((m.get_height() as u64) << 32) | ((m.get_flags() as u64) << 48)
    }

    /// Borrow the interned record.
    pub fn hirpdag_deref(&self) -> (d: &D)
        ensures
            *d == self.data(),
    {
        &R::strong_deref(&self.r).hirpdag_data
    }

    /// Identity comparison: true exactly when both handles hold the same
    /// cell, in which case the cells' contents agree too.
    pub fn ptr_eq(a: &Self, b: &Self) -> (r: bool)
        ensures
            r == (a.id() == b.id() && a.storage() == b.storage()),
    {
        R::strong_ptr_eq(&a.r, &b.r)
    }

    fn from_ref(r: R) -> (h: Self)
        ensures
            h.id() == r.id(),
            h.storage() == r.data(),
    {
        HirpdagRef { r, phantom: core::marker::PhantomData }
    }
}

impl<D, R> HirpdagRef<D, R> where D: HirpdagComputeMeta, R: Reference<HirpdagStorage<D>> {
    /// The interning invariant: the stored metadata is the fold of the
    /// record's parts, written once when the cell was made.
    pub open spec fn meta_ok(&self) -> bool {
        self.meta() == self.data().compute_meta_spec()
    }
}

impl<D, R> Clone for HirpdagRef<D, R> where R: Reference<HirpdagStorage<D>> {
    /// The clone holds the same cell.
    fn clone(&self) -> (c: Self)
        ensures
            c.id() == self.id(),
            c.storage() == self.storage(),
    {
        HirpdagRef { r: R::strong_clone(&self.r), phantom: core::marker::PhantomData }
    }
}

impl<D, R> PartialEq for HirpdagRef<D, R> where
    R: Reference<HirpdagStorage<D>>,
 {
    /// Equality on handles is identity of the cells, not a deep comparison.
    fn eq(&self, other: &Self) -> (r: bool) {
        R::strong_ptr_eq(&self.r, &other.r)
    }
}

impl<D, R> vstd::std_specs::cmp::PartialEqSpecImpl for HirpdagRef<D, R> where
    R: Reference<HirpdagStorage<D>>,
 {
    open spec fn obeys_eq_spec() -> bool {
        true
    }

    open spec fn eq_spec(&self, other: &Self) -> bool {
        self.id() == other.id() && self.storage() == other.storage()
    }
}

impl<D, R> Eq for HirpdagRef<D, R> where R: Reference<HirpdagStorage<D>> {

}

impl<D, R> HirpdagComputeMeta for HirpdagRef<D, R> where
    R: Reference<HirpdagStorage<D>>,
 {
    /// A handle contributes exactly its cell's precomputed metadata; this is
    /// what keeps the fold proportional to fan-out, not subtree size.
    open spec fn compute_meta_spec(&self) -> HirpdagMeta {
        self.meta()
    }

    fn hirpdag_compute_meta(&self) -> (m: HirpdagMeta) {
        *self.hirpdag_get_meta()
    }
}

/// One type's intern table: a shared table whose cells pair the record with
/// its metadata.
pub struct HirpdagHashconsTable<D, R, T, TS> {
    table: TS,
    phantom_d: core::marker::PhantomData<D>,
    phantom_r: core::marker::PhantomData<R>,
    phantom_t: core::marker::PhantomData<T>,
}

impl<D, R, T, TS> HirpdagHashconsTable<D, R, T, TS> where
    D: HirpdagStruct,
    R: Reference<HirpdagStorage<D>>,
    T: Table<HirpdagStorage<D>, R>,
    TS: TableShared<HirpdagStorage<D>, R, T>,
 {
    pub fn new<TSB>(tableshared_builder: TSB) -> Self where
        TSB: BuildTableShared<HirpdagStorage<D>, R, T, TableSharedType = TS> + Default,
     {
        Self {
            table: tableshared_builder.build_tableshared(),
            phantom_d: core::marker::PhantomData,
            phantom_r: core::marker::PhantomData,
            phantom_t: core::marker::PhantomData,
        }
    }

    /// Intern a record: return a handle to the unique cell holding a record
    /// equivalent to `data`, allocating it — and computing its metadata —
    /// only when no live equivalent cell exists.
    pub fn hirpdag_hashcons(&self, data: D) -> (h: HirpdagRef<D, R>)
        ensures
            h.data().eqv(&data),
            h.meta_ok(),
    {
        let storage = HirpdagStorage { hirpdag_meta: HirpdagMeta::zero(), hirpdag_data: data };
        let compute_hirpdag_meta = |s: HirpdagStorage<D>| -> (res: HirpdagStorage<D>)
            ensures
                res.hirpdag_data == s.hirpdag_data,
                res.hirpdag_meta == s.hirpdag_data.compute_meta_spec(),
            {
                let m = s.hirpdag_data.hirpdag_compute_meta();
                HirpdagStorage { hirpdag_meta: m, hirpdag_data: s.hirpdag_data }
            };
        proof {
            assert forall|d2: HirpdagStorage<D>|
                #[trigger] call_ensures(compute_hirpdag_meta, (storage,), d2) implies d2.eqv(
                &storage) && d2.valid() by {
                d2.lemma_eqv_refl();
            }
        }
        let r = self.table.get_or_insert(storage, compute_hirpdag_meta);
        HirpdagRef::from_ref(r)
    }
}

} // verus!
