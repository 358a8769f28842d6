//! A worked schema with three node declarations: a record `MessageA
//! { a: i32, b: String, c: Option<MessageA>, d: i32 }` whose optional field
//! makes chains of nodes, a tagged union `EnumB` over four payloads, and a
//! record `MessageC { d: i32, e: EnumB }` embedding the union.
//!
//! As the schema generator's contract asks, each record gets a
//! fields-record with structural equality and hashing, a handle type with
//! identity equality, and the rewritable protocol; the union stays a plain
//! value type that folds and rewrites its payload.  Strings take no part in
//! the hash — the structural comparison is authoritative — and a handle
//! field hashes by its stored metadata, which is cheap and constant across
//! handles of one cell.

use vstd::prelude::*;

use crate::data::hash_combine;
use crate::data::hash_combine_spec;
use crate::data::InternData;
use crate::hashcons::handle_same;
use crate::hashcons::HirpdagHashconsTable;
use crate::hashcons::HirpdagRef;
use crate::hashcons::HirpdagStorage;
use crate::hashcons::HirpdagStruct;
use crate::memo::RewriteCache;
use crate::meta::HirpdagComputeMeta;
use crate::meta::HirpdagMeta;
use crate::meta::HirpdagMetaFlagType;
use crate::rewrite::HirpdagRewritable;
use crate::table::BuildTableDefault;

verus! {

pub type ImplRef<D> = crate::reference_arc::RefArc<D>;

pub type ImplRefWeak<D> = crate::reference_arc::RefArcWeak<D>;

pub type ImplTable<D> = crate::table_hashmap_fallback_weak::TableHashmapFallbackWeak<
    D,
    ImplRef<D>,
    ImplRefWeak<D>,
    crate::table_vec_linear_weak::TableVecLinearWeak<D, ImplRef<D>, ImplRefWeak<D>>,
>;

pub type ImplTableShared<D> = crate::tableshared_sharded::TableSharedSharded<
    D,
    ImplRef<D>,
    ImplTable<D>,
>;

pub type ImplBuildTableShared<D> = crate::tableshared_sharded::BuildTableSharedSharded<
    D,
    ImplRef<D>,
    ImplTable<D>,
    BuildTableDefault<ImplTable<D>>,
>;

pub type MessageAStorage = HirpdagStorage<MessageAData>;

pub type MessageATable = HirpdagHashconsTable<
    MessageAData,
    ImplRef<MessageAStorage>,
    ImplTable<MessageAStorage>,
    ImplTableShared<MessageAStorage>,
>;

pub type MessageCStorage = HirpdagStorage<MessageCData>;

pub type MessageCTable = HirpdagHashconsTable<
    MessageCData,
    ImplRef<MessageCStorage>,
    ImplTable<MessageCStorage>,
    ImplTableShared<MessageCStorage>,
>;

/// One intern table per node type of this schema.
pub struct SchemaTables {
    pub message_a: MessageATable,
    pub message_c: MessageCTable,
}

impl SchemaTables {
    pub fn new() -> Self {
        SchemaTables {
            message_a: HirpdagHashconsTable::new(
                ImplBuildTableShared::<MessageAStorage>::default(),
            ),
            message_c: HirpdagHashconsTable::new(
                ImplBuildTableShared::<MessageCStorage>::default(),
            ),
        }
    }
}

// ==== MessageA

#[derive(Debug)]
pub struct MessageAData {
    pub a: i32,
    pub b: String,
    pub c: Option<MessageA>,
    pub d: i32,
}

/// Handle to an interned `MessageAData`.
#[derive(Debug)]
pub struct MessageA(pub HirpdagRef<MessageAData, ImplRef<MessageAStorage>>);

/// Equivalence of optional handle fields: both absent, or the same cell.
pub open spec fn opt_message_a_eqv(x: Option<MessageA>, y: Option<MessageA>) -> bool {
    match (x, y) {
        (Option::None, Option::None) => true,
        (Option::Some(a), Option::Some(b)) => a.eqv(&b),
        _ => false,
    }
}

/// The hash contribution of an optional handle field.
pub open spec fn opt_message_a_hash(x: Option<MessageA>) -> u64 {
    match x {
        Option::None => 0,
        Option::Some(a) => a.0.meta_hash_spec(),
    }
}

fn opt_message_a_eq(x: &Option<MessageA>, y: &Option<MessageA>) -> (r: bool)
    ensures
        r == opt_message_a_eqv(*x, *y),
{
    match (x, y) {
        (None, None) => true,
        (Some(a), Some(b)) => a.ptr_eq(b),
        _ => false,
    }
}

fn opt_message_a_hash_data(x: &Option<MessageA>) -> (h: u64)
    ensures
        h == opt_message_a_hash(*x),
{
    match x {
        None => 0,
        Some(a) => a.0.meta_hash(),
    }
}

impl InternData for MessageAData {
    open spec fn eqv(&self, other: &Self) -> bool {
        self.a == other.a && self.b@ == other.b@ && opt_message_a_eqv(self.c, other.c) && self.d
            == other.d
    }

    open spec fn hash_spec(&self) -> u64 {
        hash_combine_spec(
            hash_combine_spec(self.a as u64, opt_message_a_hash(self.c)),
            self.d as u64,
        )
    }

    open spec fn valid(&self) -> bool {
        true
    }

    proof fn lemma_eqv_refl(&self) {
    }

    proof fn lemma_eqv_sym(&self, other: &Self) {
    }

    proof fn lemma_eqv_trans(&self, b: &Self, c: &Self) {
    }

    proof fn lemma_eqv_hash(&self, other: &Self) {
    }

    fn eq_data(&self, other: &Self) -> (r: bool) {
        self.a == other.a && self.b == other.b && opt_message_a_eq(&self.c, &other.c) && self.d
            == other.d
    }

    fn hash_data(&self) -> (h: u64) {
        hash_combine(
            hash_combine(self.a as u64, opt_message_a_hash_data(&self.c)),
            self.d as u64,
        )
    }
}

impl HirpdagComputeMeta for MessageAData {
    open spec fn compute_meta_spec(&self) -> HirpdagMeta {
        HirpdagMeta::spec_zero().spec_fold(self.a.compute_meta_spec()).spec_fold(
            self.b.compute_meta_spec(),
        ).spec_fold(self.c.compute_meta_spec()).spec_fold(self.d.compute_meta_spec())
            .spec_increment().spec_add_flags(0)
    }

    fn hirpdag_compute_meta(&self) -> (m: HirpdagMeta) {
        HirpdagMeta::zero().fold(self.a.hirpdag_compute_meta()).fold(
            self.b.hirpdag_compute_meta(),
        ).fold(self.c.hirpdag_compute_meta()).fold(self.d.hirpdag_compute_meta()).increment()
            .add_flags(self.hirpdag_flags())
    }
}

impl HirpdagStruct for MessageAData {
    open spec fn flags_spec(&self) -> HirpdagMetaFlagType {
        0
    }

    fn hirpdag_flags(&self) -> (f: HirpdagMetaFlagType) {
        0
    }
}

impl MessageA {
    /// Both handles hold the same interned cell.
    pub open spec fn eqv(&self, other: &MessageA) -> bool {
        handle_same(self.0, other.0)
    }

    pub fn ptr_eq(&self, other: &Self) -> (r: bool)
        ensures
            r == self.eqv(other),
    {
        HirpdagRef::ptr_eq(&self.0, &other.0)
    }

    pub fn get(&self) -> (d: &MessageAData)
        ensures
            *d == self.0.data(),
    {
        self.0.hirpdag_deref()
    }

    pub fn get_meta(&self) -> (m: &HirpdagMeta)
        ensures
            *m == self.0.meta(),
    {
        self.0.hirpdag_get_meta()
    }

    /// Intern the record as given.
    pub fn spawn(tables: &SchemaTables, a: i32, b: String, c: Option<MessageA>, d: i32) -> (r:
        Self)
        ensures
            r.0.meta_ok(),
            r.0.data().eqv(&(MessageAData { a, b, c, d })),
    {
        MessageA(tables.message_a.hirpdag_hashcons(MessageAData { a, b, c, d }))
    }

    /// No normalizer was declared for `MessageA`, so `new` interns directly.
    pub fn new(tables: &SchemaTables, a: i32, b: String, c: Option<MessageA>, d: i32) -> (r: Self)
        ensures
            r.0.meta_ok(),
            r.0.data().eqv(&(MessageAData { a, b, c, d })),
    {
        MessageA::spawn(tables, a, b, c, d)
    }

    /// Rebuild this node with each field rewritten by the rewriter.  The
    /// primitive and string fields rewrite to themselves, and an optional
    /// handle field keeps its shape; only what the rewriter does to the
    /// child handle is the rewriter's own.
    pub fn default_rewrite<T: HirpdagRewriter>(&self, rewriter: &mut T) -> (r: Self)
        ensures
            r.0.meta_ok(),
            r.0.data().a == self.0.data().a,
            r.0.data().b@ == self.0.data().b@,
            r.0.data().c is Some <==> self.0.data().c is Some,
            r.0.data().d == self.0.data().d,
    {
        let data = self.get();
        let a = data.a.hirpdag_rewrite(rewriter);
        let b = data.b.hirpdag_rewrite(rewriter);
        let c = data.c.hirpdag_rewrite(rewriter);
        let d = data.d.hirpdag_rewrite(rewriter);
        MessageA::new(rewriter.tables(), a, b, c, d)
    }
}

impl Clone for MessageA {
    /// The clone holds the same cell.
    fn clone(&self) -> (c: Self)
        ensures
            c.eqv(self),
    {
        MessageA(self.0.clone())
    }
}

impl PartialEq for MessageA {
    /// Equality on handles is identity of the cells.
    fn eq(&self, other: &Self) -> (r: bool) {
        HirpdagRef::ptr_eq(&self.0, &other.0)
    }
}

impl vstd::std_specs::cmp::PartialEqSpecImpl for MessageA {
    open spec fn obeys_eq_spec() -> bool {
        true
    }

    open spec fn eq_spec(&self, other: &Self) -> bool {
        self.eqv(other)
    }
}

impl Eq for MessageA {

}

impl HirpdagComputeMeta for MessageA {
    open spec fn compute_meta_spec(&self) -> HirpdagMeta {
        self.0.meta()
    }

    fn hirpdag_compute_meta(&self) -> (m: HirpdagMeta) {
        *self.0.hirpdag_get_meta()
    }
}

impl<T: HirpdagRewriter> HirpdagRewritable<T> for MessageA {
    fn hirpdag_rewrite(&self, rewriter: &mut T) -> Self {
        rewriter.rewrite_message_a(self)
    }
}

// ==== EnumB

/// A tagged union over four payload types.  It is a plain value, not an
/// interned node: it folds and rewrites its payload and compares
/// structurally, with handle payloads compared by identity.
#[derive(Debug)]
pub enum EnumB {
    Foo(i32),
    Bar(String),
    Baz(Option<MessageA>),
    Brr(String),
}

impl EnumB {
    pub open spec fn eqv(&self, other: &EnumB) -> bool {
        match (self, other) {
            (EnumB::Foo(x), EnumB::Foo(y)) => x == y,
            (EnumB::Bar(x), EnumB::Bar(y)) => x@ == y@,
            (EnumB::Baz(x), EnumB::Baz(y)) => opt_message_a_eqv(*x, *y),
            (EnumB::Brr(x), EnumB::Brr(y)) => x@ == y@,
            _ => false,
        }
    }

    pub open spec fn hash_spec(&self) -> u64 {
        match self {
            EnumB::Foo(x) => hash_combine_spec(1, *x as u64),
            EnumB::Bar(x) => 2,
            EnumB::Baz(x) => hash_combine_spec(3, opt_message_a_hash(*x)),
            EnumB::Brr(x) => 4,
        }
    }

    pub fn eq_data(&self, other: &EnumB) -> (r: bool)
        ensures
            r == self.eqv(other),
    {
        match (self, other) {
            (EnumB::Foo(x), EnumB::Foo(y)) => *x == *y,
            (EnumB::Bar(x), EnumB::Bar(y)) => *x == *y,
            (EnumB::Baz(x), EnumB::Baz(y)) => opt_message_a_eq(x, y),
            (EnumB::Brr(x), EnumB::Brr(y)) => *x == *y,
            _ => false,
        }
    }

    pub fn hash_data(&self) -> (h: u64)
        ensures
            h == self.hash_spec(),
    {
        match self {
            EnumB::Foo(x) => hash_combine(1, *x as u64),
            EnumB::Bar(x) => 2,
            EnumB::Baz(x) => hash_combine(3, opt_message_a_hash_data(x)),
            EnumB::Brr(x) => 4,
        }
    }

    /// Rebuild the union with its payload rewritten: the variant is
    /// preserved, value payloads rebuild to equal values, and an optional
    /// handle payload keeps its shape.
    pub fn default_rewrite<T: HirpdagRewriter>(&self, rewriter: &mut T) -> (r: Self)
        ensures
            self matches EnumB::Foo(n) ==> r.eqv(self),
            self matches EnumB::Bar(s) ==> r.eqv(self),
            self matches EnumB::Brr(s) ==> r.eqv(self),
            self matches EnumB::Baz(o) ==> (r matches EnumB::Baz(o2) && (o2 is Some <==> o
                is Some)),
    {
        match self {
            EnumB::Foo(x) => EnumB::Foo(x.hirpdag_rewrite(rewriter)),
            EnumB::Bar(x) => EnumB::Bar(x.hirpdag_rewrite(rewriter)),
            EnumB::Baz(x) => EnumB::Baz(x.hirpdag_rewrite(rewriter)),
            EnumB::Brr(x) => EnumB::Brr(x.hirpdag_rewrite(rewriter)),
        }
    }
}

impl Clone for EnumB {
    fn clone(&self) -> (c: Self)
        ensures
            c.eqv(self),
    {
        match self {
            EnumB::Foo(x) => EnumB::Foo(*x),
            EnumB::Bar(x) => EnumB::Bar(x.clone()),
            EnumB::Baz(x) => EnumB::Baz(
                match x {
                    Some(a) => Some(a.clone()),
                    None => None,
                },
            ),
            EnumB::Brr(x) => EnumB::Brr(x.clone()),
        }
    }
}

impl HirpdagComputeMeta for EnumB {
    open spec fn compute_meta_spec(&self) -> HirpdagMeta {
        match self {
            EnumB::Foo(x) => x.compute_meta_spec(),
            EnumB::Bar(x) => x.compute_meta_spec(),
            EnumB::Baz(x) => x.compute_meta_spec(),
            EnumB::Brr(x) => x.compute_meta_spec(),
        }
    }

    fn hirpdag_compute_meta(&self) -> (m: HirpdagMeta) {
        match self {
            EnumB::Foo(x) => x.hirpdag_compute_meta(),
            EnumB::Bar(x) => x.hirpdag_compute_meta(),
            EnumB::Baz(x) => x.hirpdag_compute_meta(),
            EnumB::Brr(x) => x.hirpdag_compute_meta(),
        }
    }
}

impl<T: HirpdagRewriter> HirpdagRewritable<T> for EnumB {
    fn hirpdag_rewrite(&self, rewriter: &mut T) -> (r: Self)
        ensures
            self matches EnumB::Foo(n) ==> r.eqv(self),
            self matches EnumB::Bar(s) ==> r.eqv(self),
            self matches EnumB::Brr(s) ==> r.eqv(self),
            self matches EnumB::Baz(o) ==> (r matches EnumB::Baz(o2) && (o2 is Some <==> o
                is Some)),
    {
        self.default_rewrite(rewriter)
    }
}

// ==== MessageC

#[derive(Debug)]
pub struct MessageCData {
    pub d: i32,
    pub e: EnumB,
}

/// Handle to an interned `MessageCData`.
#[derive(Debug)]
pub struct MessageC(pub HirpdagRef<MessageCData, ImplRef<MessageCStorage>>);

impl InternData for MessageCData {
    open spec fn eqv(&self, other: &Self) -> bool {
        self.d == other.d && self.e.eqv(&other.e)
    }

    open spec fn hash_spec(&self) -> u64 {
        hash_combine_spec(self.d as u64, self.e.hash_spec())
    }

    open spec fn valid(&self) -> bool {
        true
    }

    proof fn lemma_eqv_refl(&self) {
    }

    proof fn lemma_eqv_sym(&self, other: &Self) {
    }

    proof fn lemma_eqv_trans(&self, b: &Self, c: &Self) {
    }

    proof fn lemma_eqv_hash(&self, other: &Self) {
    }

    fn eq_data(&self, other: &Self) -> (r: bool) {
        self.d == other.d && self.e.eq_data(&other.e)
    }

    fn hash_data(&self) -> (h: u64) {
        hash_combine(self.d as u64, self.e.hash_data())
    }
}

impl HirpdagComputeMeta for MessageCData {
    open spec fn compute_meta_spec(&self) -> HirpdagMeta {
        HirpdagMeta::spec_zero().spec_fold(self.d.compute_meta_spec()).spec_fold(
            self.e.compute_meta_spec(),
        ).spec_increment().spec_add_flags(0)
    }

    fn hirpdag_compute_meta(&self) -> (m: HirpdagMeta) {
        HirpdagMeta::zero().fold(self.d.hirpdag_compute_meta()).fold(
            self.e.hirpdag_compute_meta(),
        ).increment().add_flags(self.hirpdag_flags())
    }
}

impl HirpdagStruct for MessageCData {
    open spec fn flags_spec(&self) -> HirpdagMetaFlagType {
        0
    }

    fn hirpdag_flags(&self) -> (f: HirpdagMetaFlagType) {
        0
    }
}

impl MessageC {
    /// Both handles hold the same interned cell.
    pub open spec fn eqv(&self, other: &MessageC) -> bool {
        handle_same(self.0, other.0)
    }

    pub fn ptr_eq(&self, other: &Self) -> (r: bool)
        ensures
            r == self.eqv(other),
    {
        HirpdagRef::ptr_eq(&self.0, &other.0)
    }

    pub fn get(&self) -> (d: &MessageCData)
        ensures
            *d == self.0.data(),
    {
        self.0.hirpdag_deref()
    }

    pub fn get_meta(&self) -> (m: &HirpdagMeta)
        ensures
            *m == self.0.meta(),
    {
        self.0.hirpdag_get_meta()
    }

    /// Intern the record as given.
    pub fn spawn(tables: &SchemaTables, d: i32, e: EnumB) -> (r: Self)
        ensures
            r.0.meta_ok(),
            r.0.data().eqv(&(MessageCData { d, e })),
    {
        MessageC(tables.message_c.hirpdag_hashcons(MessageCData { d, e }))
    }

    /// No normalizer was declared for `MessageC`, so `new` interns directly.
    pub fn new(tables: &SchemaTables, d: i32, e: EnumB) -> (r: Self)
        ensures
            r.0.meta_ok(),
            r.0.data().eqv(&(MessageCData { d, e })),
    {
        MessageC::spawn(tables, d, e)
    }

    /// Rebuild this node with each field rewritten by the rewriter: the
    /// primitive field rewrites to itself, and the union keeps its
    /// variant — value payloads rebuild equal, a handle payload keeps its
    /// shape.
    pub fn default_rewrite<T: HirpdagRewriter>(&self, rewriter: &mut T) -> (r: Self)
        ensures
            r.0.meta_ok(),
            r.0.data().d == self.0.data().d,
            self.0.data().e matches EnumB::Foo(n) ==> r.0.data().e.eqv(&self.0.data().e),
            self.0.data().e matches EnumB::Bar(s) ==> r.0.data().e.eqv(&self.0.data().e),
            self.0.data().e matches EnumB::Brr(s) ==> r.0.data().e.eqv(&self.0.data().e),
            self.0.data().e matches EnumB::Baz(o) ==> (r.0.data().e matches EnumB::Baz(o2) && (o2
                is Some <==> o is Some)),
    {
        let data = self.get();
        let d = data.d.hirpdag_rewrite(rewriter);
        let e = data.e.hirpdag_rewrite(rewriter);
        MessageC::new(rewriter.tables(), d, e)
    }
}

impl Clone for MessageC {
    /// The clone holds the same cell.
    fn clone(&self) -> (c: Self)
        ensures
            c.eqv(self),
    {
        MessageC(self.0.clone())
    }
}

impl PartialEq for MessageC {
    /// Equality on handles is identity of the cells.
    fn eq(&self, other: &Self) -> (r: bool) {
        HirpdagRef::ptr_eq(&self.0, &other.0)
    }
}

impl vstd::std_specs::cmp::PartialEqSpecImpl for MessageC {
    open spec fn obeys_eq_spec() -> bool {
        true
    }

    open spec fn eq_spec(&self, other: &Self) -> bool {
        self.eqv(other)
    }
}

impl Eq for MessageC {

}

impl HirpdagComputeMeta for MessageC {
    open spec fn compute_meta_spec(&self) -> HirpdagMeta {
        self.0.meta()
    }

    fn hirpdag_compute_meta(&self) -> (m: HirpdagMeta) {
        *self.0.hirpdag_get_meta()
    }
}

impl<T: HirpdagRewriter> HirpdagRewritable<T> for MessageC {
    fn hirpdag_rewrite(&self, rewriter: &mut T) -> Self {
        rewriter.rewrite_message_c(self)
    }
}

// ==== Rewriting

/// The rewriter capability for this schema: one hook per node type.  A
/// hook that wants the structural behaviour calls the node's
/// `default_rewrite`; overriding a hook replaces the treatment of that
/// node type.
pub trait HirpdagRewriter: Sized {
    /// The intern tables rebuilt nodes go through.
    fn tables(&self) -> &SchemaTables;

    fn rewrite_message_a(&mut self, x: &MessageA) -> MessageA;

    fn rewrite_message_c(&mut self, x: &MessageC) -> MessageC;
}

/// Decorates a rewriter with one input-to-output cache per node type,
/// keyed by handle identity.
pub struct HirpdagRewriteMemoized<RW: HirpdagRewriter> {
    cache_message_a: RewriteCache<MessageAData, ImplRef<MessageAStorage>>,
    cache_message_c: RewriteCache<MessageCData, ImplRef<MessageCStorage>>,
    rewriter: RW,
}

impl<RW: HirpdagRewriter> HirpdagRewriteMemoized<RW> {
    /// The recorded pairs of the message a cache.
    pub closed spec fn message_a_cache(&self) -> RewriteCache<MessageAData, ImplRef<MessageAStorage>> {
        self.cache_message_a
    }

    /// The recorded pairs of the message c cache.
    pub closed spec fn message_c_cache(&self) -> RewriteCache<MessageCData, ImplRef<MessageCStorage>> {
        self.cache_message_c
    }

    /// Fresh caches: nothing is recorded yet.
    pub fn new(rewriter: RW) -> (r: Self)
        ensures
            r.message_a_cache()@.len() == 0,
            r.message_c_cache()@.len() == 0,
    {
        Self {
            cache_message_a: RewriteCache::new(),
            cache_message_c: RewriteCache::new(),
            rewriter,
        }
    }

    /// Rewrite any rewritable value, dispatching node handles through this
    /// memoized rewriter's hooks.
    pub fn rewrite<X: HirpdagRewritable<Self>>(&mut self, x: &X) -> X {
        x.hirpdag_rewrite(self)
    }
}

impl<RW: HirpdagRewriter> HirpdagRewriter for HirpdagRewriteMemoized<RW> {
    fn tables(&self) -> &SchemaTables {
        self.rewriter.tables()
    }

    fn rewrite_message_a(&mut self, x: &MessageA) -> (y: MessageA)
        ensures
            final(self).message_c_cache() == old(self).message_c_cache(),
            old(self).message_a_cache().contains_key(x.0) ==> *final(self) == *old(self) && (
            exists|i: int|
                old(self).message_a_cache().first_match(x.0, i) && handle_same(old(self).message_a_cache()@[i].1, y.0)),
            !old(self).message_a_cache().contains_key(x.0) ==> (exists|p: (
                HirpdagRef<MessageAData, ImplRef<MessageAStorage>>,
                HirpdagRef<MessageAData, ImplRef<MessageAStorage>>,
            )|
                final(self).message_a_cache()@ == old(self).message_a_cache()@.push(p) && handle_same(p.0, x.0)
                    && handle_same(p.1, y.0)),
    {
        if let Some(y) = self.cache_message_a.get(&x.0) {
            return MessageA(y);
        }
        let y = self.rewriter.rewrite_message_a(x);
        self.cache_message_a.insert(x.0.clone(), y.0.clone());
        y
    }

    fn rewrite_message_c(&mut self, x: &MessageC) -> (y: MessageC)
        ensures
            final(self).message_a_cache() == old(self).message_a_cache(),
            old(self).message_c_cache().contains_key(x.0) ==> *final(self) == *old(self) && (
            exists|i: int|
                old(self).message_c_cache().first_match(x.0, i) && handle_same(old(self).message_c_cache()@[i].1, y.0)),
            !old(self).message_c_cache().contains_key(x.0) ==> (exists|p: (
                HirpdagRef<MessageCData, ImplRef<MessageCStorage>>,
                HirpdagRef<MessageCData, ImplRef<MessageCStorage>>,
            )|
                final(self).message_c_cache()@ == old(self).message_c_cache()@.push(p) && handle_same(p.0, x.0)
                    && handle_same(p.1, y.0)),
    {
        if let Some(y) = self.cache_message_c.get(&x.0) {
            return MessageC(y);
        }
        let y = self.rewriter.rewrite_message_c(x);
        self.cache_message_c.insert(x.0.clone(), y.0.clone());
        y
    }
}


// ==== Laws

/// What a `MessageA` node's children contribute: nothing when the optional
/// field is absent, the child's stored summary when present.
pub open spec fn message_a_children_meta(d: MessageAData) -> HirpdagMeta {
    match d.c {
        Option::None => HirpdagMeta::spec_zero(),
        Option::Some(ch) => ch.0.meta(),
    }
}

/// Metadata fold correctness for `MessageA` nodes: the stored summary is
/// the children's contribution with count and height each one more,
/// saturating, and the same flags.  With no child that means count one,
/// height one, no flags.
pub proof fn lemma_message_a_meta_fold(r: &MessageA)
    requires
        r.0.meta_ok(),
    ensures
        r.0.meta() == message_a_children_meta(r.0.data()).spec_increment(),
{
    let c = message_a_children_meta(r.0.data());
    crate::meta::lemma_fold_zero(HirpdagMeta::spec_zero());
    crate::meta::lemma_fold_zero(c);
    crate::meta::lemma_fold_zero(c.spec_increment());
}

/// Metadata fold correctness for `MessageC` nodes: the stored summary is
/// the union payload's contribution with count and height each one more,
/// saturating, and the same flags.
pub proof fn lemma_message_c_meta_fold(r: &MessageC)
    requires
        r.0.meta_ok(),
    ensures
        r.0.meta() == r.0.data().e.compute_meta_spec().spec_increment(),
{
    let c = r.0.data().e.compute_meta_spec();
    crate::meta::lemma_fold_zero(HirpdagMeta::spec_zero());
    crate::meta::lemma_fold_zero(c);
    crate::meta::lemma_fold_zero(c.spec_increment());
}

} // verus!
