//! A small worked schema: the per-type code for a record `EvenNumber
//! { a: u32 }` with a user normalizer that rounds `a` down to even, and a
//! record `Holder { x: EvenNumber }` that holds a handle to it.
//!
//! This is the code the schema generator's contract asks for, written out
//! by hand: a fields-record with structural equality and hashing, the
//! handle type with identity equality, the rewritable protocol, a rewriter
//! capability with one hook per node type, and its memoizing decorator.
//! Intern tables are created explicitly (`SchemaTables::new`) and passed by
//! reference; a handle keeps its cell alive, not the table.

use vstd::prelude::*;

use crate::data::InternData;
use crate::hashcons::handle_same;
use crate::hashcons::HirpdagHashconsTable;
use crate::hashcons::HirpdagRef;
use crate::hashcons::HirpdagStorage;
use crate::hashcons::HirpdagStruct;
use crate::memo::RewriteCache;
use crate::meta::HirpdagComputeMeta;
use crate::meta::HirpdagMeta;
use crate::meta::HirpdagMetaFlagType;
use crate::rewrite::HirpdagRewritable;
use crate::table::BuildTableDefault;

verus! {

pub type ImplRef<D> = crate::reference_arc::RefArc<D>;

pub type ImplRefWeak<D> = crate::reference_arc::RefArcWeak<D>;

pub type ImplTable<D> = crate::table_hashmap_fallback_weak::TableHashmapFallbackWeak<
    D,
    ImplRef<D>,
    ImplRefWeak<D>,
    crate::table_vec_linear_weak::TableVecLinearWeak<D, ImplRef<D>, ImplRefWeak<D>>,
>;

pub type ImplTableShared<D> = crate::tableshared_sharded::TableSharedSharded<
    D,
    ImplRef<D>,
    ImplTable<D>,
>;

pub type ImplBuildTableShared<D> = crate::tableshared_sharded::BuildTableSharedSharded<
    D,
    ImplRef<D>,
    ImplTable<D>,
    BuildTableDefault<ImplTable<D>>,
>;

pub type EvenNumberStorage = HirpdagStorage<EvenNumberData>;

pub type EvenNumberTable = HirpdagHashconsTable<
    EvenNumberData,
    ImplRef<EvenNumberStorage>,
    ImplTable<EvenNumberStorage>,
    ImplTableShared<EvenNumberStorage>,
>;

pub type HolderStorage = HirpdagStorage<HolderData>;

pub type HolderTable = HirpdagHashconsTable<
    HolderData,
    ImplRef<HolderStorage>,
    ImplTable<HolderStorage>,
    ImplTableShared<HolderStorage>,
>;

/// One intern table per node type of this schema.
pub struct SchemaTables {
    pub even_number: EvenNumberTable,
    pub holder: HolderTable,
}

impl SchemaTables {
    pub fn new() -> Self {
        SchemaTables {
            even_number: HirpdagHashconsTable::new(
                ImplBuildTableShared::<EvenNumberStorage>::default(),
            ),
            holder: HirpdagHashconsTable::new(ImplBuildTableShared::<HolderStorage>::default()),
        }
    }
}

// ==== EvenNumber

#[derive(Debug, PartialEq, Eq, Hash)]
pub struct EvenNumberData {
    pub a: u32,
}

/// Handle to an interned `EvenNumberData`.
#[derive(Debug)]
pub struct EvenNumber(pub HirpdagRef<EvenNumberData, ImplRef<EvenNumberStorage>>);

impl InternData for EvenNumberData {
    open spec fn eqv(&self, other: &Self) -> bool {
        self.a == other.a
    }

    open spec fn hash_spec(&self) -> u64 {
        self.a as u64
    }

    open spec fn valid(&self) -> bool {
        true
    }

    proof fn lemma_eqv_refl(&self) {
    }

    proof fn lemma_eqv_sym(&self, other: &Self) {
    }

    proof fn lemma_eqv_trans(&self, b: &Self, c: &Self) {
    }

    proof fn lemma_eqv_hash(&self, other: &Self) {
    }

    fn eq_data(&self, other: &Self) -> (r: bool) {
        self.a == other.a
    }

    fn hash_data(&self) -> (h: u64) {
        self.a as u64
    }
}

impl HirpdagComputeMeta for EvenNumberData {
    open spec fn compute_meta_spec(&self) -> HirpdagMeta {
        HirpdagMeta::spec_zero().spec_fold(self.a.compute_meta_spec()).spec_increment()
            .spec_add_flags(0)
    }

    fn hirpdag_compute_meta(&self) -> (m: HirpdagMeta) {
        HirpdagMeta::zero().fold(self.a.hirpdag_compute_meta()).increment().add_flags(
            self.hirpdag_flags(),
        )
    }
}

impl HirpdagStruct for EvenNumberData {
    open spec fn flags_spec(&self) -> HirpdagMetaFlagType {
        0
    }

    fn hirpdag_flags(&self) -> (f: HirpdagMetaFlagType) {
        0
    }
}

impl EvenNumber {
    /// Both handles hold the same interned cell.
    pub open spec fn eqv(&self, other: &EvenNumber) -> bool {
        handle_same(self.0, other.0)
    }

    pub fn ptr_eq(&self, other: &Self) -> (r: bool)
        ensures
            r == self.eqv(other),
    {
        HirpdagRef::ptr_eq(&self.0, &other.0)
    }

    pub fn get(&self) -> (d: &EvenNumberData)
        ensures
            *d == self.0.data(),
    {
        self.0.hirpdag_deref()
    }

    pub fn get_meta(&self) -> (m: &HirpdagMeta)
        ensures
            *m == self.0.meta(),
    {
        self.0.hirpdag_get_meta()
    }

    /// Intern the record as given, without normalization.
    pub fn spawn(tables: &SchemaTables, a: u32) -> (r: Self)
        ensures
            r.0.meta_ok(),
            r.0.data().a == a,
    {
        EvenNumber(tables.even_number.hirpdag_hashcons(EvenNumberData { a }))
    }

    /// The user normalizer: round `a` down to the nearest even number, then
    /// intern.
    pub fn new(tables: &SchemaTables, a: u32) -> (r: Self)
        ensures
            r.0.meta_ok(),
            r.0.data().a == a & !1u32,
    {
        EvenNumber::spawn(tables, a & !1u32)
    }

    /// Rebuild this node with each field rewritten by the rewriter, going
    /// through the normalizing constructor.
    pub fn default_rewrite<T: HirpdagRewriter>(&self, rewriter: &mut T) -> (r: Self)
        ensures
            r.0.meta_ok(),
            r.0.data().a == self.0.data().a & !1u32,
    {
        let a = self.get().a.hirpdag_rewrite(rewriter);
        EvenNumber::new(rewriter.tables(), a)
    }
}

impl Clone for EvenNumber {
    /// The clone holds the same cell.
    fn clone(&self) -> (c: Self)
        ensures
            c.eqv(self),
    {
        EvenNumber(self.0.clone())
    }
}

impl PartialEq for EvenNumber {
    /// Equality on handles is identity of the cells.
    fn eq(&self, other: &Self) -> (r: bool) {
        HirpdagRef::ptr_eq(&self.0, &other.0)
    }
}

impl vstd::std_specs::cmp::PartialEqSpecImpl for EvenNumber {
    open spec fn obeys_eq_spec() -> bool {
        true
    }

    open spec fn eq_spec(&self, other: &Self) -> bool {
        self.eqv(other)
    }
}

impl Eq for EvenNumber {

}

impl HirpdagComputeMeta for EvenNumber {
    open spec fn compute_meta_spec(&self) -> HirpdagMeta {
        self.0.meta()
    }

    fn hirpdag_compute_meta(&self) -> (m: HirpdagMeta) {
        *self.0.hirpdag_get_meta()
    }
}

impl<T: HirpdagRewriter> HirpdagRewritable<T> for EvenNumber {
    fn hirpdag_rewrite(&self, rewriter: &mut T) -> Self {
        rewriter.rewrite_even_number(self)
    }
}

// ==== Holder

#[derive(Debug)]
pub struct HolderData {
    pub x: EvenNumber,
}

/// Handle to an interned `HolderData`.
#[derive(Debug)]
pub struct Holder(pub HirpdagRef<HolderData, ImplRef<HolderStorage>>);

impl InternData for HolderData {
    open spec fn eqv(&self, other: &Self) -> bool {
        self.x.eqv(&other.x)
    }

    open spec fn hash_spec(&self) -> u64 {
        self.x.0.meta_hash_spec()
    }

    open spec fn valid(&self) -> bool {
        true
    }

    proof fn lemma_eqv_refl(&self) {
    }

    proof fn lemma_eqv_sym(&self, other: &Self) {
    }

    proof fn lemma_eqv_trans(&self, b: &Self, c: &Self) {
    }

    proof fn lemma_eqv_hash(&self, other: &Self) {
    }

    fn eq_data(&self, other: &Self) -> (r: bool) {
        self.x.ptr_eq(&other.x)
    }

    fn hash_data(&self) -> (h: u64) {
        self.x.0.meta_hash()
    }
}

impl HirpdagComputeMeta for HolderData {
    open spec fn compute_meta_spec(&self) -> HirpdagMeta {
        HirpdagMeta::spec_zero().spec_fold(self.x.compute_meta_spec()).spec_increment()
            .spec_add_flags(0)
    }

    fn hirpdag_compute_meta(&self) -> (m: HirpdagMeta) {
        HirpdagMeta::zero().fold(self.x.hirpdag_compute_meta()).increment().add_flags(
            self.hirpdag_flags(),
        )
    }
}

impl HirpdagStruct for HolderData {
    open spec fn flags_spec(&self) -> HirpdagMetaFlagType {
        0
    }

    fn hirpdag_flags(&self) -> (f: HirpdagMetaFlagType) {
        0
    }
}

impl Holder {
    /// Both handles hold the same interned cell.
    pub open spec fn eqv(&self, other: &Holder) -> bool {
        handle_same(self.0, other.0)
    }

    pub fn ptr_eq(&self, other: &Self) -> (r: bool)
        ensures
            r == self.eqv(other),
    {
        HirpdagRef::ptr_eq(&self.0, &other.0)
    }

    pub fn get(&self) -> (d: &HolderData)
        ensures
            *d == self.0.data(),
    {
        self.0.hirpdag_deref()
    }

    pub fn get_meta(&self) -> (m: &HirpdagMeta)
        ensures
            *m == self.0.meta(),
    {
        self.0.hirpdag_get_meta()
    }

    /// Intern the record as given.
    pub fn spawn(tables: &SchemaTables, x: EvenNumber) -> (r: Self)
        ensures
            r.0.meta_ok(),
            r.0.data().eqv(&HolderData { x }),
    {
        Holder(tables.holder.hirpdag_hashcons(HolderData { x }))
    }

    /// No normalizer was declared for `Holder`, so `new` interns directly.
    pub fn new(tables: &SchemaTables, x: EvenNumber) -> (r: Self)
        ensures
            r.0.meta_ok(),
            r.0.data().eqv(&HolderData { x }),
    {
        Holder::spawn(tables, x)
    }

    /// Rebuild this node with each field rewritten by the rewriter.
    pub fn default_rewrite<T: HirpdagRewriter>(&self, rewriter: &mut T) -> (r: Self)
        ensures
            r.0.meta_ok(),
    {
        let x = self.get().x.clone();
        let x2 = x.hirpdag_rewrite(rewriter);
        Holder::new(rewriter.tables(), x2)
    }
}

impl Clone for Holder {
    /// The clone holds the same cell.
    fn clone(&self) -> (c: Self)
        ensures
            c.eqv(self),
    {
        Holder(self.0.clone())
    }
}

impl PartialEq for Holder {
    /// Equality on handles is identity of the cells.
    fn eq(&self, other: &Self) -> (r: bool) {
        HirpdagRef::ptr_eq(&self.0, &other.0)
    }
}

impl vstd::std_specs::cmp::PartialEqSpecImpl for Holder {
    open spec fn obeys_eq_spec() -> bool {
        true
    }

    open spec fn eq_spec(&self, other: &Self) -> bool {
        self.eqv(other)
    }
}

impl Eq for Holder {

}

impl HirpdagComputeMeta for Holder {
    open spec fn compute_meta_spec(&self) -> HirpdagMeta {
        self.0.meta()
    }

    fn hirpdag_compute_meta(&self) -> (m: HirpdagMeta) {
        *self.0.hirpdag_get_meta()
    }
}

impl<T: HirpdagRewriter> HirpdagRewritable<T> for Holder {
    fn hirpdag_rewrite(&self, rewriter: &mut T) -> Self {
        rewriter.rewrite_holder(self)
    }
}

// ==== Rewriting

/// The rewriter capability for this schema: one hook per node type.  A
/// hook that wants the structural behaviour calls the node's
/// `default_rewrite`; overriding a hook replaces the treatment of that
/// node type.
pub trait HirpdagRewriter: Sized {
    /// The intern tables rebuilt nodes go through.
    fn tables(&self) -> &SchemaTables;

    fn rewrite_even_number(&mut self, x: &EvenNumber) -> EvenNumber;

    fn rewrite_holder(&mut self, x: &Holder) -> Holder;
}

/// Decorates a rewriter with one input-to-output cache per node type,
/// keyed by handle identity.
pub struct HirpdagRewriteMemoized<RW: HirpdagRewriter> {
    cache_even_number: RewriteCache<EvenNumberData, ImplRef<EvenNumberStorage>>,
    cache_holder: RewriteCache<HolderData, ImplRef<HolderStorage>>,
    rewriter: RW,
}

impl<RW: HirpdagRewriter> HirpdagRewriteMemoized<RW> {
    /// The recorded pairs of the even number cache.
    pub closed spec fn even_number_cache(&self) -> RewriteCache<EvenNumberData, ImplRef<EvenNumberStorage>> {
        self.cache_even_number
    }

    /// The recorded pairs of the holder cache.
    pub closed spec fn holder_cache(&self) -> RewriteCache<HolderData, ImplRef<HolderStorage>> {
        self.cache_holder
    }

    /// Fresh caches: nothing is recorded yet.
    pub fn new(rewriter: RW) -> (r: Self)
        ensures
            r.even_number_cache()@.len() == 0,
            r.holder_cache()@.len() == 0,
    {
        Self {
            cache_even_number: RewriteCache::new(),
            cache_holder: RewriteCache::new(),
            rewriter,
        }
    }

    /// Rewrite any rewritable value, dispatching node handles through this
    /// memoized rewriter's hooks.
    pub fn rewrite<X: HirpdagRewritable<Self>>(&mut self, x: &X) -> X {
        x.hirpdag_rewrite(self)
    }
}

impl<RW: HirpdagRewriter> HirpdagRewriter for HirpdagRewriteMemoized<RW> {
    fn tables(&self) -> &SchemaTables {
        self.rewriter.tables()
    }

    fn rewrite_even_number(&mut self, x: &EvenNumber) -> (y: EvenNumber)
        ensures
            final(self).holder_cache() == old(self).holder_cache(),
            old(self).even_number_cache().contains_key(x.0) ==> *final(self) == *old(self) && (
            exists|i: int|
                old(self).even_number_cache().first_match(x.0, i) && handle_same(old(self).even_number_cache()@[i].1, y.0)),
            !old(self).even_number_cache().contains_key(x.0) ==> (exists|p: (
                HirpdagRef<EvenNumberData, ImplRef<EvenNumberStorage>>,
                HirpdagRef<EvenNumberData, ImplRef<EvenNumberStorage>>,
            )|
                final(self).even_number_cache()@ == old(self).even_number_cache()@.push(p) && handle_same(p.0, x.0)
                    && handle_same(p.1, y.0)),
    {
        if let Some(y) = self.cache_even_number.get(&x.0) {
            return EvenNumber(y);
        }
        let y = self.rewriter.rewrite_even_number(x);
        self.cache_even_number.insert(x.0.clone(), y.0.clone());
        y
    }

    fn rewrite_holder(&mut self, x: &Holder) -> (y: Holder)
        ensures
            final(self).even_number_cache() == old(self).even_number_cache(),
            old(self).holder_cache().contains_key(x.0) ==> *final(self) == *old(self) && (
            exists|i: int|
                old(self).holder_cache().first_match(x.0, i) && handle_same(old(self).holder_cache()@[i].1, y.0)),
            !old(self).holder_cache().contains_key(x.0) ==> (exists|p: (
                HirpdagRef<HolderData, ImplRef<HolderStorage>>,
                HirpdagRef<HolderData, ImplRef<HolderStorage>>,
            )|
                final(self).holder_cache()@ == old(self).holder_cache()@.push(p) && handle_same(p.0, x.0)
                    && handle_same(p.1, y.0)),
    {
        if let Some(y) = self.cache_holder.get(&x.0) {
            return Holder(y);
        }
        let y = self.rewriter.rewrite_holder(x);
        self.cache_holder.insert(x.0.clone(), y.0.clone());
        y
    }
}


// ==== Laws

/// Metadata fold correctness for `EvenNumber` nodes: a leaf's summary is
/// the fold identity incremented — one node, height one, no flags.
pub proof fn lemma_even_number_meta_fold(r: &EvenNumber)
    requires
        r.0.meta_ok(),
    ensures
        r.0.meta() == HirpdagMeta::spec_zero().spec_increment(),
{
    crate::meta::lemma_fold_zero(HirpdagMeta::spec_zero());
    crate::meta::lemma_fold_zero(HirpdagMeta::spec_zero().spec_increment());
}

/// Metadata fold correctness for `Holder` nodes: the stored summary is the
/// child's stored summary with count and height each one more, saturating,
/// and the same flags.
pub proof fn lemma_holder_meta_fold(r: &Holder)
    requires
        r.0.meta_ok(),
    ensures
        r.0.meta() == r.0.data().x.0.meta().spec_increment(),
{
    crate::meta::lemma_fold_zero(r.0.data().x.0.meta());
    crate::meta::lemma_fold_zero(r.0.data().x.0.meta().spec_increment());
}

} // verus!
