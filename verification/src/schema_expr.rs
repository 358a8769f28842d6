//! A worked schema for a small expression language: a record `Expr
//! { x: ExprKind }` with a user normalizer, the union `ExprKind` over
//! numbers, n-ary sums and products and variables, and a record
//! `Variables { x: Expr }`.
//!
//! The normalizer canonicalizes before interning: nested same-operator
//! applications are flattened, constants are folded (with identity 0 for
//! sums and 1 for products), a single remaining element is yielded as
//! itself, and the children are sorted by a deterministic deep comparison.
//! Equal expressions therefore intern to one cell however they were
//! written down.

use vstd::prelude::*;

use crate::data::hash_combine;
use crate::data::hash_combine_spec;
use crate::data::InternData;
use crate::hashcons::handle_same;
use crate::hashcons::HirpdagHashconsTable;
use crate::hashcons::HirpdagRef;
use crate::hashcons::HirpdagStorage;
use crate::hashcons::HirpdagStruct;
use crate::memo::RewriteCache;
use crate::meta::HirpdagComputeMeta;
use crate::meta::HirpdagMeta;
use crate::meta::HirpdagMetaFlagType;
use crate::rewrite::HirpdagRewritable;
use crate::table::BuildTableDefault;

verus! {

pub type ImplRef<D> = crate::reference_arc::RefArc<D>;

pub type ImplRefWeak<D> = crate::reference_arc::RefArcWeak<D>;

pub type ImplTable<D> = crate::table_hashmap_fallback_weak::TableHashmapFallbackWeak<
    D,
    ImplRef<D>,
    ImplRefWeak<D>,
    crate::table_vec_linear_weak::TableVecLinearWeak<D, ImplRef<D>, ImplRefWeak<D>>,
>;

pub type ImplTableShared<D> = crate::tableshared_sharded::TableSharedSharded<
    D,
    ImplRef<D>,
    ImplTable<D>,
>;

pub type ImplBuildTableShared<D> = crate::tableshared_sharded::BuildTableSharedSharded<
    D,
    ImplRef<D>,
    ImplTable<D>,
    BuildTableDefault<ImplTable<D>>,
>;

pub type ExprStorage = HirpdagStorage<ExprData>;

pub type ExprTable = HirpdagHashconsTable<
    ExprData,
    ImplRef<ExprStorage>,
    ImplTable<ExprStorage>,
    ImplTableShared<ExprStorage>,
>;

pub type VariablesStorage = HirpdagStorage<VariablesData>;

pub type VariablesTable = HirpdagHashconsTable<
    VariablesData,
    ImplRef<VariablesStorage>,
    ImplTable<VariablesStorage>,
    ImplTableShared<VariablesStorage>,
>;

/// One intern table per node type of this schema.
pub struct SchemaTables {
    pub expr: ExprTable,
    pub variables: VariablesTable,
}

impl SchemaTables {
    pub fn new() -> Self {
        SchemaTables {
            expr: HirpdagHashconsTable::new(ImplBuildTableShared::<ExprStorage>::default()),
            variables: HirpdagHashconsTable::new(
                ImplBuildTableShared::<VariablesStorage>::default(),
            ),
        }
    }
}

// ==== Expr

#[derive(Debug)]
pub struct ExprData {
    pub x: ExprKind,
}

/// Handle to an interned `ExprData`.
#[derive(Debug)]
pub struct Expr(pub HirpdagRef<ExprData, ImplRef<ExprStorage>>);

/// A tagged union of expression shapes.  `Add` and `Mul` hold their
/// operands as handles, so subexpressions are shared.
#[derive(Debug)]
pub enum ExprKind {
    Num(u32),
    Add(Vec<Expr>),
    Mul(Vec<Expr>),
    Var(String),
}

/// Elementwise handle identity of two operand sequences.
pub open spec fn seq_expr_eqv(x: Seq<Expr>, y: Seq<Expr>) -> bool {
    x.len() == y.len() && forall|i: int| 0 <= i < x.len() ==> x[i].eqv(&y[i])
}

/// The hash contribution of an operand sequence: a fold of the elements'
/// metadata hashes.
pub open spec fn seq_expr_hash(s: Seq<Expr>) -> u64
    decreases s.len(),
{
    if s.len() == 0 {
        0
    } else {
        hash_combine_spec(seq_expr_hash(s.drop_last()), s.last().0.meta_hash_spec())
    }
}

proof fn lemma_seq_expr_hash_congr(x: Seq<Expr>, y: Seq<Expr>)
    requires
        seq_expr_eqv(x, y),
    ensures
        seq_expr_hash(x) == seq_expr_hash(y),
    decreases x.len(),
{
    if x.len() > 0 {
        assert(seq_expr_eqv(x.drop_last(), y.drop_last()));
        lemma_seq_expr_hash_congr(x.drop_last(), y.drop_last());
        assert(x[x.len() - 1].eqv(&y[x.len() - 1]));
    }
}

fn vec_expr_eq(x: &Vec<Expr>, y: &Vec<Expr>) -> (r: bool)
    ensures
        r == seq_expr_eqv(x@, y@),
{
    if x.len() != y.len() {
        return false;
    }
    let mut i: usize = 0;
    while i < x.len()
        invariant
            x@.len() == y@.len(),
            i <= x@.len(),
            forall|j: int| 0 <= j < i ==> x@[j].eqv(&y@[j]),
        decreases x@.len() - i,
    {
        if !x[i].ptr_eq(&y[i]) {
            return false;
        }
        i = i + 1;
    }
    true
}

fn vec_expr_hash(s: &Vec<Expr>) -> (h: u64)
    ensures
        h == seq_expr_hash(s@),
{
    let mut acc: u64 = 0;
    let mut i: usize = 0;
    while i < s.len()
        invariant
            i <= s@.len(),
            acc == seq_expr_hash(s@.take(i as int)),
        decreases s@.len() - i,
    {
        proof {
            assert(s@.take(i + 1 as int).drop_last() =~= s@.take(i as int));
            assert(s@.take(i + 1 as int).last() == s@[i as int]);
        }
        acc = hash_combine(acc, s[i].0.meta_hash());
        i = i + 1;
    }
    proof {
        assert(s@.take(s@.len() as int) =~= s@);
    }
    acc
}

fn clone_vec_expr(v: &Vec<Expr>) -> (r: Vec<Expr>)
    ensures
        seq_expr_eqv(v@, r@),
{
    let mut out: Vec<Expr> = Vec::new();
    let mut i: usize = 0;
    while i < v.len()
        invariant
            i <= v@.len(),
            out@.len() == i,
            forall|j: int| 0 <= j < i ==> v@[j].eqv(&out@[j]),
        decreases v@.len() - i,
    {
        out.push(v[i].clone());
        i = i + 1;
    }
    out
}

impl ExprKind {
    pub open spec fn eqv(&self, other: &ExprKind) -> bool {
        match (self, other) {
            (ExprKind::Num(x), ExprKind::Num(y)) => x == y,
            (ExprKind::Add(x), ExprKind::Add(y)) => seq_expr_eqv(x@, y@),
            (ExprKind::Mul(x), ExprKind::Mul(y)) => seq_expr_eqv(x@, y@),
            (ExprKind::Var(x), ExprKind::Var(y)) => x@ == y@,
            _ => false,
        }
    }

    pub open spec fn hash_spec(&self) -> u64 {
        match self {
            ExprKind::Num(x) => hash_combine_spec(1, *x as u64),
            ExprKind::Add(x) => hash_combine_spec(2, seq_expr_hash(x@)),
            ExprKind::Mul(x) => hash_combine_spec(3, seq_expr_hash(x@)),
            ExprKind::Var(x) => 4,
        }
    }

    pub fn eq_data(&self, other: &ExprKind) -> (r: bool)
        ensures
            r == self.eqv(other),
    {
        match (self, other) {
            (ExprKind::Num(x), ExprKind::Num(y)) => *x == *y,
            (ExprKind::Add(x), ExprKind::Add(y)) => vec_expr_eq(x, y),
            (ExprKind::Mul(x), ExprKind::Mul(y)) => vec_expr_eq(x, y),
            (ExprKind::Var(x), ExprKind::Var(y)) => *x == *y,
            _ => false,
        }
    }

    pub fn hash_data(&self) -> (h: u64)
        ensures
            h == self.hash_spec(),
    {
        match self {
            ExprKind::Num(x) => hash_combine(1, *x as u64),
            ExprKind::Add(x) => hash_combine(2, vec_expr_hash(x)),
            ExprKind::Mul(x) => hash_combine(3, vec_expr_hash(x)),
            ExprKind::Var(x) => 4,
        }
    }

    /// Rebuild the union with each operand rewritten: a number or a
    /// variable rebuilds to an equal payload, a sum or product keeps its
    /// operator and operand count.
    pub fn default_rewrite<T: HirpdagRewriter>(&self, rewriter: &mut T) -> (r: Self)
        ensures
            self matches ExprKind::Num(n) ==> r.eqv(self),
            self matches ExprKind::Var(v) ==> r.eqv(self),
            self matches ExprKind::Add(v) ==> (r matches ExprKind::Add(w) && w@.len()
                == v@.len()),
            self matches ExprKind::Mul(v) ==> (r matches ExprKind::Mul(w) && w@.len()
                == v@.len()),
    {
        match self {
            ExprKind::Num(x) => ExprKind::Num(x.hirpdag_rewrite(rewriter)),
            ExprKind::Add(x) => ExprKind::Add(x.hirpdag_rewrite(rewriter)),
            ExprKind::Mul(x) => ExprKind::Mul(x.hirpdag_rewrite(rewriter)),
            ExprKind::Var(x) => ExprKind::Var(x.hirpdag_rewrite(rewriter)),
        }
    }
}

impl Clone for ExprKind {
    fn clone(&self) -> (c: Self)
        ensures
            c.eqv(self),
    {
        match self {
            ExprKind::Num(x) => ExprKind::Num(*x),
            ExprKind::Add(x) => ExprKind::Add(clone_vec_expr(x)),
            ExprKind::Mul(x) => ExprKind::Mul(clone_vec_expr(x)),
            ExprKind::Var(x) => ExprKind::Var(x.clone()),
        }
    }
}

impl HirpdagComputeMeta for ExprKind {
    open spec fn compute_meta_spec(&self) -> HirpdagMeta {
        match self {
            ExprKind::Num(x) => x.compute_meta_spec(),
            ExprKind::Add(x) => x.compute_meta_spec(),
            ExprKind::Mul(x) => x.compute_meta_spec(),
            ExprKind::Var(x) => x.compute_meta_spec(),
        }
    }

    fn hirpdag_compute_meta(&self) -> (m: HirpdagMeta) {
        match self {
            ExprKind::Num(x) => x.hirpdag_compute_meta(),
            ExprKind::Add(x) => x.hirpdag_compute_meta(),
            ExprKind::Mul(x) => x.hirpdag_compute_meta(),
            ExprKind::Var(x) => x.hirpdag_compute_meta(),
        }
    }
}

impl<T: HirpdagRewriter> HirpdagRewritable<T> for ExprKind {
    fn hirpdag_rewrite(&self, rewriter: &mut T) -> (r: Self)
        ensures
            self matches ExprKind::Num(n) ==> r.eqv(self),
            self matches ExprKind::Var(v) ==> r.eqv(self),
    {
        self.default_rewrite(rewriter)
    }
}

impl InternData for ExprData {
    open spec fn eqv(&self, other: &Self) -> bool {
        self.x.eqv(&other.x)
    }

    open spec fn hash_spec(&self) -> u64 {
        self.x.hash_spec()
    }

    open spec fn valid(&self) -> bool {
        true
    }

    proof fn lemma_eqv_refl(&self) {
    }

    proof fn lemma_eqv_sym(&self, other: &Self) {
    }

    proof fn lemma_eqv_trans(&self, b: &Self, c: &Self) {
    }

    proof fn lemma_eqv_hash(&self, other: &Self) {
        match (self.x, other.x) {
            (ExprKind::Add(a), ExprKind::Add(b)) => {
                lemma_seq_expr_hash_congr(a@, b@);
            },
            (ExprKind::Mul(a), ExprKind::Mul(b)) => {
                lemma_seq_expr_hash_congr(a@, b@);
            },
            _ => {},
        }
    }

    fn eq_data(&self, other: &Self) -> (r: bool) {
        self.x.eq_data(&other.x)
    }

    fn hash_data(&self) -> (h: u64) {
        self.x.hash_data()
    }
}

impl HirpdagComputeMeta for ExprData {
    open spec fn compute_meta_spec(&self) -> HirpdagMeta {
        HirpdagMeta::spec_zero().spec_fold(self.x.compute_meta_spec()).spec_increment()
            .spec_add_flags(0)
    }

    fn hirpdag_compute_meta(&self) -> (m: HirpdagMeta) {
        HirpdagMeta::zero().fold(self.x.hirpdag_compute_meta()).increment().add_flags(
            self.hirpdag_flags(),
        )
    }
}

impl HirpdagStruct for ExprData {
    open spec fn flags_spec(&self) -> HirpdagMetaFlagType {
        0
    }

    fn hirpdag_flags(&self) -> (f: HirpdagMetaFlagType) {
        0
    }
}

impl Expr {
    /// Both handles hold the same interned cell.
    pub open spec fn eqv(&self, other: &Expr) -> bool {
        handle_same(self.0, other.0)
    }

    pub fn ptr_eq(&self, other: &Self) -> (r: bool)
        ensures
            r == self.eqv(other),
    {
        HirpdagRef::ptr_eq(&self.0, &other.0)
    }

    pub fn get(&self) -> (d: &ExprData)
        ensures
            *d == self.0.data(),
    {
        self.0.hirpdag_deref()
    }

    pub fn get_meta(&self) -> (m: &HirpdagMeta)
        ensures
            *m == self.0.meta(),
    {
        self.0.hirpdag_get_meta()
    }

    /// Intern the record as given, without normalization.
    pub fn spawn(tables: &SchemaTables, x: ExprKind) -> (r: Self)
        ensures
            r.0.meta_ok(),
            r.0.data().eqv(&(ExprData { x })),
    {
        Expr(tables.expr.hirpdag_hashcons(ExprData { x }))
    }

    /// The user normalizer: flatten nested same-operator applications,
    /// fold constants, yield a single remaining element as itself, and
    /// sort the operands; then intern.  Numbers and variables intern as
    /// given; an application of constants alone interns as the folded
    /// constant, and kept operands stand in an operator result's operand
    /// list by cell identity.
    pub fn new(tables: &SchemaTables, x: ExprKind) -> (r: Self)
        ensures
            r.0.meta_ok(),
            x matches ExprKind::Num(n) ==> r.0.data().eqv(&(ExprData { x })),
            x matches ExprKind::Var(v) ==> r.0.data().eqv(&(ExprData { x })),
            x matches ExprKind::Mul(v) ==> (all_num(v@) && fold_consts(v@, true) != 1
                ==> r.0.data().x.eqv(&ExprKind::Num(fold_consts(v@, true)))),
            x matches ExprKind::Add(v) ==> (all_num(v@) && fold_consts(v@, false) != 0
                ==> r.0.data().x.eqv(&ExprKind::Num(fold_consts(v@, false)))),
            x matches ExprKind::Mul(v) ==> (r.0.data().x is Mul ==> forall|k: int|
                0 <= k < v@.len() && #[trigger] expr_kept(v@[k], true) ==> seq_contains_cell(
                    operands_of(r.0.data().x),
                    v@[k],
                )),
            x matches ExprKind::Add(v) ==> (r.0.data().x is Add ==> forall|k: int|
                0 <= k < v@.len() && #[trigger] expr_kept(v@[k], false) ==> seq_contains_cell(
                    operands_of(r.0.data().x),
                    v@[k],
                )),
            x matches ExprKind::Mul(v) ==> ((forall|k: int|
                0 <= k < v@.len() ==> expr_kept(#[trigger] v@[k], true)) && v@.len() >= 2
                ==> r.0.data().x is Mul && operands_of(r.0.data().x).len() == v@.len()),
            x matches ExprKind::Add(v) ==> ((forall|k: int|
                0 <= k < v@.len() ==> expr_kept(#[trigger] v@[k], false)) && v@.len() >= 2
                ==> r.0.data().x is Add && operands_of(r.0.data().x).len() == v@.len()),
    {
        match x {
            ExprKind::Mul(original_factors) => nary_expr_normalize(
                tables,
                original_factors,
                true,
            ),
            ExprKind::Add(original_terms) => nary_expr_normalize(tables, original_terms, false),
            _ => Expr::spawn(tables, x),
        }
    }

    /// Rebuild this node with each field rewritten by the rewriter, going
    /// through the normalizing constructor.  A number or variable node
    /// rebuilds to an equal record.
    pub fn default_rewrite<T: HirpdagRewriter>(&self, rewriter: &mut T) -> (r: Self)
        ensures
            r.0.meta_ok(),
            self.0.data().x matches ExprKind::Num(n) ==> r.0.data().x.eqv(&self.0.data().x),
            self.0.data().x matches ExprKind::Var(v) ==> r.0.data().x.eqv(&self.0.data().x),
    {
        let data = self.get();
        let x = data.x.hirpdag_rewrite(rewriter);
        Expr::new(rewriter.tables(), x)
    }
}

impl Clone for Expr {
    /// The clone holds the same cell.
    fn clone(&self) -> (c: Self)
        ensures
            c.eqv(self),
    {
        Expr(self.0.clone())
    }
}

impl PartialEq for Expr {
    /// Equality on handles is identity of the cells.
    fn eq(&self, other: &Self) -> (r: bool) {
        HirpdagRef::ptr_eq(&self.0, &other.0)
    }
}

impl vstd::std_specs::cmp::PartialEqSpecImpl for Expr {
    open spec fn obeys_eq_spec() -> bool {
        true
    }

    open spec fn eq_spec(&self, other: &Self) -> bool {
        self.eqv(other)
    }
}

impl Eq for Expr {

}

impl HirpdagComputeMeta for Expr {
    open spec fn compute_meta_spec(&self) -> HirpdagMeta {
        self.0.meta()
    }

    fn hirpdag_compute_meta(&self) -> (m: HirpdagMeta) {
        *self.0.hirpdag_get_meta()
    }
}

impl<T: HirpdagRewriter> HirpdagRewritable<T> for Expr {
    fn hirpdag_rewrite(&self, rewriter: &mut T) -> Self {
        rewriter.rewrite_expr(self)
    }
}

// ==== The normalizer's pieces

/// Some member of the sequence holds the same cell.
pub open spec fn seq_contains_cell(s: Seq<Expr>, e: Expr) -> bool {
    exists|i: int| 0 <= i < s.len() && s[i].eqv(&e)
}

/// Every operand is a constant.
pub open spec fn all_num(s: Seq<Expr>) -> bool {
    forall|i: int| 0 <= i < s.len() ==> (#[trigger] s[i]).0.data().x is Num
}

/// The wrapping fold of the constant operands, left to right, starting
/// from the operator's identity; non-constant operands contribute nothing.
pub open spec fn fold_consts(s: Seq<Expr>, is_mul: bool) -> u32
    decreases s.len(),
{
    if s.len() == 0 {
        if is_mul {
            1
        } else {
            0
        }
    } else {
        match s.last().0.data().x {
            ExprKind::Num(n) => if is_mul {
                fold_consts(s.drop_last(), is_mul).wrapping_mul(n)
            } else {
                fold_consts(s.drop_last(), is_mul).wrapping_add(n)
            },
            _ => fold_consts(s.drop_last(), is_mul),
        }
    }
}

/// An operand the normalizer keeps as it is: not a constant, and not a
/// nest of the same operator (which is flattened away).
pub open spec fn expr_kept(e: Expr, is_mul: bool) -> bool {
    &&& !(e.0.data().x is Num)
    &&& (is_mul ==> !(e.0.data().x is Mul))
    &&& (!is_mul ==> !(e.0.data().x is Add))
}

/// The operand list of a sum or product; empty for anything else.
pub open spec fn operands_of(x: ExprKind) -> Seq<Expr> {
    match x {
        ExprKind::Add(v) => v@,
        ExprKind::Mul(v) => v@,
        _ => Seq::empty(),
    }
}

proof fn lemma_contains_cell_after(pre: Seq<Expr>, post: Seq<Expr>, x: Expr)
    requires
        seq_contains_cell(pre, x),
        post == pre || (exists|c: Expr| post == pre.push(c)),
    ensures
        seq_contains_cell(post, x),
{
    let i = choose|i: int| 0 <= i < pre.len() && pre[i].eqv(&x);
    if post != pre {
        let c = choose|c: Expr| post == pre.push(c);
        assert(post[i].eqv(&x));
    }
}

/// Fold one flattened operand into the running state: a constant combines
/// into `combined` (wrapping), anything else is kept as an operand.
fn normalize_element(is_mul: bool, combined: &mut u32, elements: &mut Vec<Expr>, e: &Expr)
    ensures
        final(elements)@ == old(elements)@ || (exists|c: Expr|
            final(elements)@ == old(elements)@.push(c)),
        e.0.data().x matches ExprKind::Num(n) ==> final(elements)@ == old(elements)@
            && *final(combined) == (if is_mul {
            (*old(combined)).wrapping_mul(n)
        } else {
            (*old(combined)).wrapping_add(n)
        }),
        !(e.0.data().x is Num) ==> *final(combined) == *old(combined) && (exists|c: Expr|
            final(elements)@ == old(elements)@.push(c) && c.eqv(e)),
{
    let data = e.get();
    match &data.x {
        ExprKind::Num(n) => {
            if is_mul {
                *combined = combined.wrapping_mul(*n);
            } else {
                *combined = combined.wrapping_add(*n);
            }
        },
        _ => {
            elements.push(e.clone());
        },
    }
}

/// How deep the structural comparison is willing to look.  The structure
/// is acyclic and in practice far shallower than this bound.
const CMP_DEPTH: u64 = 1000000;

fn cmp_u64(x: u64, y: u64) -> (o: core::cmp::Ordering)
    ensures
        o == core::cmp::Ordering::Less <==> x < y,
        o == core::cmp::Ordering::Equal <==> x == y,
        o == core::cmp::Ordering::Greater <==> x > y,
{
    if x < y {
        core::cmp::Ordering::Less
    } else if x == y {
        core::cmp::Ordering::Equal
    } else {
        core::cmp::Ordering::Greater
    }
}

/// Deterministic deep comparison of two expressions, by shape first and
/// then by payload, looking at most `depth` levels down.
fn cmp_expr(a: &Expr, b: &Expr, depth: u64) -> core::cmp::Ordering
    decreases depth,
{
    if depth == 0 {
        return core::cmp::Ordering::Equal;
    }
    let da = a.get();
    let db = b.get();
    match (&da.x, &db.x) {
        (ExprKind::Num(x), ExprKind::Num(y)) => cmp_u64(*x as u64, *y as u64),
        (ExprKind::Num(_), _) => core::cmp::Ordering::Less,
        (_, ExprKind::Num(_)) => core::cmp::Ordering::Greater,
        (ExprKind::Add(x), ExprKind::Add(y)) => cmp_vec_expr(x, y, depth - 1),
        (ExprKind::Add(_), _) => core::cmp::Ordering::Less,
        (_, ExprKind::Add(_)) => core::cmp::Ordering::Greater,
        (ExprKind::Mul(x), ExprKind::Mul(y)) => cmp_vec_expr(x, y, depth - 1),
        (ExprKind::Mul(_), _) => core::cmp::Ordering::Less,
        (_, ExprKind::Mul(_)) => core::cmp::Ordering::Greater,
        (ExprKind::Var(x), ExprKind::Var(y)) => cmp_bytes(x.as_str().as_bytes(), y.as_str()
            .as_bytes()),
    }
}

/// Lexicographic comparison of operand sequences.
fn cmp_vec_expr(x: &Vec<Expr>, y: &Vec<Expr>, depth: u64) -> core::cmp::Ordering
    decreases depth,
{
    if depth == 0 {
        return core::cmp::Ordering::Equal;
    }
    let mut i: usize = 0;
    while i < x.len() && i < y.len()
        invariant
            depth >= 1,
            i <= x@.len(),
            i <= y@.len(),
        decreases x@.len() - i,
    {
        match cmp_expr(&x[i], &y[i], depth - 1) {
            core::cmp::Ordering::Equal => {},
            o => {
                return o;
            },
        }
        i = i + 1;
    }
    cmp_u64(x.len() as u64, y.len() as u64)
}

/// Lexicographic byte comparison.
fn cmp_bytes(x: &[u8], y: &[u8]) -> core::cmp::Ordering {
    let mut i: usize = 0;
    while i < x.len() && i < y.len()
        invariant
            i <= x@.len(),
            i <= y@.len(),
        decreases x@.len() - i,
    {
        if x[i] < y[i] {
            return core::cmp::Ordering::Less;
        }
        if x[i] > y[i] {
            return core::cmp::Ordering::Greater;
        }
        i = i + 1;
    }
    cmp_u64(x.len() as u64, y.len() as u64)
}

/// Insertion sort under the deep comparison; deterministic, so equal sets
/// of operands come out in one canonical order, and a permutation, so
/// every operand handed in stands in the result.
fn sort_exprs(v: &mut Vec<Expr>)
    ensures
        final(v)@.len() == old(v)@.len(),
        forall|x: Expr| #[trigger] seq_contains_cell(old(v)@, x) == seq_contains_cell(
            final(v)@,
            x,
        ),
{
    let ghost n = v@.len();
    let ghost orig = v@;
    let mut i: usize = 1;
    while i < v.len()
        invariant
            v@.len() == n,
            1 <= i,
            forall|x: Expr| #[trigger] seq_contains_cell(orig, x) == seq_contains_cell(v@, x),
        decreases v@.len() - i,
    {
        let mut j: usize = i;
        while j > 0
            invariant
                v@.len() == n,
                j <= i < v@.len(),
                forall|x: Expr| #[trigger] seq_contains_cell(orig, x) == seq_contains_cell(
                    v@,
                    x,
                ),
            decreases j,
        {
            match cmp_expr(&v[j - 1], &v[j], CMP_DEPTH) {
                core::cmp::Ordering::Greater => {
                    let ghost pre = v@;
                    let e = v.remove(j);
                    v.insert(j - 1, e);
                    proof {
                        // The two neighbours traded places; everything
                        // else stands where it stood.
                        assert forall|x: Expr| #[trigger] seq_contains_cell(pre, x) implies
                            seq_contains_cell(v@, x) by {
                            let w = choose|k: int| 0 <= k < pre.len() && pre[k].eqv(&x);
                            if w == j - 1 {
                                assert(v@[j as int] == pre[j - 1]);
                                assert(v@[j as int].eqv(&x));
                            } else if w == j {
                                assert(v@[j - 1] == pre[j as int]);
                                assert(v@[j - 1].eqv(&x));
                            } else {
                                assert(v@[w] == pre[w]);
                                assert(v@[w].eqv(&x));
                            }
                        }
                        assert forall|x: Expr| #[trigger] seq_contains_cell(v@, x) implies
                            seq_contains_cell(pre, x) by {
                            let w = choose|k: int| 0 <= k < v@.len() && v@[k].eqv(&x);
                            if w == j - 1 {
                                assert(pre[j as int] == v@[j - 1]);
                                assert(pre[j as int].eqv(&x));
                            } else if w == j {
                                assert(pre[j - 1] == v@[j as int]);
                                assert(pre[j - 1].eqv(&x));
                            } else {
                                assert(pre[w] == v@[w]);
                                assert(pre[w].eqv(&x));
                            }
                        }
                    }
                },
                _ => {
                    break ;
                },
            }
            j = j - 1;
        }
        i = i + 1;
    }
}

/// Normalize an n-ary operator application: flatten nested same-operator
/// children, fold constants with the operator's identity, yield a single
/// remaining element as itself, and sort the rest before interning.
///
/// The contract pins the two halves of that work down: an application of
/// constants alone interns as the folded constant (unless the fold is the
/// identity, which is dropped), and every kept operand stands, by cell
/// identity, in an operator result's operand list.
fn nary_expr_normalize(tables: &SchemaTables, original_elements: Vec<Expr>, is_mul: bool) -> (r:
    Expr)
    ensures
        r.0.meta_ok(),
        all_num(original_elements@) && fold_consts(original_elements@, is_mul) != (if is_mul {
            1u32
        } else {
            0u32
        }) ==> r.0.data().x.eqv(
            &ExprKind::Num(fold_consts(original_elements@, is_mul)),
        ),
        forall|k: int|
            0 <= k < original_elements@.len() && #[trigger] expr_kept(
                original_elements@[k],
                is_mul,
            ) && (if is_mul {
                r.0.data().x is Mul
            } else {
                r.0.data().x is Add
            }) ==> seq_contains_cell(operands_of(r.0.data().x), original_elements@[k]),
        (forall|k: int|
            0 <= k < original_elements@.len() ==> expr_kept(
                #[trigger] original_elements@[k],
                is_mul,
            )) && original_elements@.len() >= 2 ==> ((if is_mul {
            r.0.data().x is Mul
        } else {
            r.0.data().x is Add
        }) && operands_of(r.0.data().x).len() == original_elements@.len()),
{
    let ghost orig = original_elements@;
    let identity: u32 = if is_mul {
        1
    } else {
        0
    };
    let mut elements: Vec<Expr> = Vec::new();
    let mut combined: u32 = identity;
    let mut i: usize = 0;
    while i < original_elements.len()
        invariant
            i <= orig.len(),
            orig == original_elements@,
            identity == (if is_mul { 1u32 } else { 0u32 }),
            all_num(orig.take(i as int)) ==> elements@.len() == 0 && combined == fold_consts(
                orig.take(i as int),
                is_mul,
            ),
            (forall|k: int| 0 <= k < i ==> expr_kept(#[trigger] orig[k], is_mul))
                ==> elements@.len() == i && combined == identity,
            forall|k: int|
                0 <= k < i && #[trigger] expr_kept(orig[k], is_mul) ==> seq_contains_cell(
                    elements@,
                    orig[k],
                ),
        decreases orig.len() - i,
    {
        proof {
            assert(orig.take(i + 1 as int).drop_last() =~= orig.take(i as int));
            assert(orig.take(i + 1 as int).last() == orig[i as int]);
        }
        let e = &original_elements[i];
        let data = e.get();
        let mut flattened = false;
        match &data.x {
            ExprKind::Mul(inner) => {
                if is_mul {
                    flattened = true;
                    let mut j: usize = 0;
                    while j < inner.len()
                        invariant
                            j <= inner@.len(),
                            orig == original_elements@,
                            forall|k: int|
                                0 <= k < i && #[trigger] expr_kept(orig[k], is_mul)
                                    ==> seq_contains_cell(elements@, orig[k]),
                        decreases inner@.len() - j,
                    {
                        let ghost pre = elements@;
                        normalize_element(is_mul, &mut combined, &mut elements, &inner[j]);
                        proof {
                            assert forall|k: int|
                                0 <= k < i && #[trigger] expr_kept(orig[k], is_mul) implies
                                seq_contains_cell(elements@, orig[k]) by {
                                lemma_contains_cell_after(pre, elements@, orig[k]);
                            }
                        }
                        j = j + 1;
                    }
                }
            },
            ExprKind::Add(inner) => {
                if !is_mul {
                    flattened = true;
                    let mut j: usize = 0;
                    while j < inner.len()
                        invariant
                            j <= inner@.len(),
                            orig == original_elements@,
                            forall|k: int|
                                0 <= k < i && #[trigger] expr_kept(orig[k], is_mul)
                                    ==> seq_contains_cell(elements@, orig[k]),
                        decreases inner@.len() - j,
                    {
                        let ghost pre = elements@;
                        normalize_element(is_mul, &mut combined, &mut elements, &inner[j]);
                        proof {
                            assert forall|k: int|
                                0 <= k < i && #[trigger] expr_kept(orig[k], is_mul) implies
                                seq_contains_cell(elements@, orig[k]) by {
                                lemma_contains_cell_after(pre, elements@, orig[k]);
                            }
                        }
                        j = j + 1;
                    }
                }
            },
            _ => {},
        }
        if !flattened {
            let ghost pre = elements@;
            normalize_element(is_mul, &mut combined, &mut elements, e);
            proof {
                if !(orig[i as int].0.data().x is Num) {
                    let c = choose|c: Expr| elements@ == pre.push(c) && c.eqv(&orig[i as int]);
                    assert(elements@[pre.len() as int].eqv(&orig[i as int]));
                }
                assert forall|k: int|
                    0 <= k < i && #[trigger] expr_kept(orig[k], is_mul) implies
                    seq_contains_cell(elements@, orig[k]) by {
                    lemma_contains_cell_after(pre, elements@, orig[k]);
                }
            }
        }
        i = i + 1;
    }
    proof {
        assert(orig.take(orig.len() as int) =~= orig);
    }
    if combined != identity {
        let ghost pre = elements@;
        elements.push(Expr::spawn(tables, ExprKind::Num(combined)));
        proof {
            assert forall|k: int|
                0 <= k < orig.len() && #[trigger] expr_kept(orig[k], is_mul) implies
                seq_contains_cell(elements@, orig[k]) by {
                lemma_contains_cell_after(pre, elements@, orig[k]);
            }
        }
    }
    if elements.len() == 1 {
        // A single remaining element is yielded as itself: interning its
        // record finds the element's own live cell.
        let ghost before_pop = elements@;
        if let Some(single) = elements.pop() {
            let kind = single.get().x.clone();
            let ghost gkind = kind;
            let res = Expr::spawn(tables, kind);
            proof {
                // An operator-shaped result here can only repeat a nested
                // operand, so no input operand was kept at all.
                assert forall|k: int|
                    0 <= k < orig.len() && #[trigger] expr_kept(orig[k], is_mul) && (if is_mul {
                        res.0.data().x is Mul
                    } else {
                        res.0.data().x is Add
                    }) implies seq_contains_cell(operands_of(res.0.data().x), orig[k]) by {
                    assert(seq_contains_cell(before_pop, orig[k]));
                    let w = choose|w: int|
                        0 <= w < before_pop.len() && before_pop[w].eqv(&orig[k]);
                    assert(w == 0);
                    assert(single.eqv(&orig[k]));
                    assert(single.0.data() == orig[k].0.data());
                    assert(res.0.data().x.eqv(&gkind));
                    assert(gkind.eqv(&single.0.data().x));
                }
            }
            return res;
        }
    }
    let ghost before_sort = elements@;
    sort_exprs(&mut elements);
    let ghost sorted_elems = elements@;
    let res = if is_mul {
        Expr::spawn(tables, ExprKind::Mul(elements))
    } else {
        Expr::spawn(tables, ExprKind::Add(elements))
    };
    proof {
        assert forall|k: int|
            0 <= k < orig.len() && #[trigger] expr_kept(orig[k], is_mul) && (if is_mul {
                res.0.data().x is Mul
            } else {
                res.0.data().x is Add
            }) implies seq_contains_cell(operands_of(res.0.data().x), orig[k]) by {
            assert(seq_contains_cell(sorted_elems, orig[k]));
            let w = choose|w: int| 0 <= w < sorted_elems.len() && sorted_elems[w].eqv(&orig[k]);
            assert(operands_of(res.0.data().x)[w].eqv(&sorted_elems[w]));
            assert(operands_of(res.0.data().x)[w].eqv(&orig[k]));
        }
    }
    res
}

// ==== Variables

#[derive(Debug)]
pub struct VariablesData {
    pub x: Expr,
}

/// Handle to an interned `VariablesData`.
#[derive(Debug)]
pub struct Variables(pub HirpdagRef<VariablesData, ImplRef<VariablesStorage>>);

impl InternData for VariablesData {
    open spec fn eqv(&self, other: &Self) -> bool {
        self.x.eqv(&other.x)
    }

    open spec fn hash_spec(&self) -> u64 {
        self.x.0.meta_hash_spec()
    }

    open spec fn valid(&self) -> bool {
        true
    }

    proof fn lemma_eqv_refl(&self) {
    }

    proof fn lemma_eqv_sym(&self, other: &Self) {
    }

    proof fn lemma_eqv_trans(&self, b: &Self, c: &Self) {
    }

    proof fn lemma_eqv_hash(&self, other: &Self) {
    }

    fn eq_data(&self, other: &Self) -> (r: bool) {
        self.x.ptr_eq(&other.x)
    }

    fn hash_data(&self) -> (h: u64) {
        self.x.0.meta_hash()
    }
}

impl HirpdagComputeMeta for VariablesData {
    open spec fn compute_meta_spec(&self) -> HirpdagMeta {
        HirpdagMeta::spec_zero().spec_fold(self.x.compute_meta_spec()).spec_increment()
            .spec_add_flags(0)
    }

    fn hirpdag_compute_meta(&self) -> (m: HirpdagMeta) {
        HirpdagMeta::zero().fold(self.x.hirpdag_compute_meta()).increment().add_flags(
            self.hirpdag_flags(),
        )
    }
}

impl HirpdagStruct for VariablesData {
    open spec fn flags_spec(&self) -> HirpdagMetaFlagType {
        0
    }

    fn hirpdag_flags(&self) -> (f: HirpdagMetaFlagType) {
        0
    }
}

impl Variables {
    /// Both handles hold the same interned cell.
    pub open spec fn eqv(&self, other: &Variables) -> bool {
        handle_same(self.0, other.0)
    }

    pub fn ptr_eq(&self, other: &Self) -> (r: bool)
        ensures
            r == self.eqv(other),
    {
        HirpdagRef::ptr_eq(&self.0, &other.0)
    }

    pub fn get(&self) -> (d: &VariablesData)
        ensures
            *d == self.0.data(),
    {
        self.0.hirpdag_deref()
    }

    pub fn get_meta(&self) -> (m: &HirpdagMeta)
        ensures
            *m == self.0.meta(),
    {
        self.0.hirpdag_get_meta()
    }

    /// Intern the record as given.
    pub fn spawn(tables: &SchemaTables, x: Expr) -> (r: Self)
        ensures
            r.0.meta_ok(),
            r.0.data().eqv(&(VariablesData { x })),
    {
        Variables(tables.variables.hirpdag_hashcons(VariablesData { x }))
    }

    /// No normalizer was declared for `Variables`, so `new` interns
    /// directly.
    pub fn new(tables: &SchemaTables, x: Expr) -> (r: Self)
        ensures
            r.0.meta_ok(),
            r.0.data().eqv(&(VariablesData { x })),
    {
        Variables::spawn(tables, x)
    }

    /// Rebuild this node with each field rewritten by the rewriter.
    pub fn default_rewrite<T: HirpdagRewriter>(&self, rewriter: &mut T) -> (r: Self)
        ensures
            r.0.meta_ok(),
    {
        let x = self.get().x.clone();
        let x2 = x.hirpdag_rewrite(rewriter);
        Variables::new(rewriter.tables(), x2)
    }
}

impl Clone for Variables {
    /// The clone holds the same cell.
    fn clone(&self) -> (c: Self)
        ensures
            c.eqv(self),
    {
        Variables(self.0.clone())
    }
}

impl PartialEq for Variables {
    /// Equality on handles is identity of the cells.
    fn eq(&self, other: &Self) -> (r: bool) {
        HirpdagRef::ptr_eq(&self.0, &other.0)
    }
}

impl vstd::std_specs::cmp::PartialEqSpecImpl for Variables {
    open spec fn obeys_eq_spec() -> bool {
        true
    }

    open spec fn eq_spec(&self, other: &Self) -> bool {
        self.eqv(other)
    }
}

impl Eq for Variables {

}

impl HirpdagComputeMeta for Variables {
    open spec fn compute_meta_spec(&self) -> HirpdagMeta {
        self.0.meta()
    }

    fn hirpdag_compute_meta(&self) -> (m: HirpdagMeta) {
        *self.0.hirpdag_get_meta()
    }
}

impl<T: HirpdagRewriter> HirpdagRewritable<T> for Variables {
    fn hirpdag_rewrite(&self, rewriter: &mut T) -> Self {
        rewriter.rewrite_variables(self)
    }
}

// ==== Rewriting

/// The rewriter capability for this schema: one hook per node type.  A
/// hook that wants the structural behaviour calls the node's
/// `default_rewrite`; overriding a hook replaces the treatment of that
/// node type.
pub trait HirpdagRewriter: Sized {
    /// The intern tables rebuilt nodes go through.
    fn tables(&self) -> &SchemaTables;

    fn rewrite_expr(&mut self, x: &Expr) -> Expr;

    fn rewrite_variables(&mut self, x: &Variables) -> Variables;
}

/// Decorates a rewriter with one input-to-output cache per node type,
/// keyed by handle identity.
pub struct HirpdagRewriteMemoized<RW: HirpdagRewriter> {
    cache_expr: RewriteCache<ExprData, ImplRef<ExprStorage>>,
    cache_variables: RewriteCache<VariablesData, ImplRef<VariablesStorage>>,
    rewriter: RW,
}

impl<RW: HirpdagRewriter> HirpdagRewriteMemoized<RW> {
    /// The recorded pairs of the expr cache.
    pub closed spec fn expr_cache(&self) -> RewriteCache<ExprData, ImplRef<ExprStorage>> {
        self.cache_expr
    }

    /// The recorded pairs of the variables cache.
    pub closed spec fn variables_cache(&self) -> RewriteCache<VariablesData, ImplRef<VariablesStorage>> {
        self.cache_variables
    }

    /// Fresh caches: nothing is recorded yet.
    pub fn new(rewriter: RW) -> (r: Self)
        ensures
            r.expr_cache()@.len() == 0,
            r.variables_cache()@.len() == 0,
    {
        Self {
            cache_expr: RewriteCache::new(),
            cache_variables: RewriteCache::new(),
            rewriter,
        }
    }

    /// Rewrite any rewritable value, dispatching node handles through this
    /// memoized rewriter's hooks.
    pub fn rewrite<X: HirpdagRewritable<Self>>(&mut self, x: &X) -> X {
        x.hirpdag_rewrite(self)
    }
}

impl<RW: HirpdagRewriter> HirpdagRewriter for HirpdagRewriteMemoized<RW> {
    fn tables(&self) -> &SchemaTables {
        self.rewriter.tables()
    }

    fn rewrite_expr(&mut self, x: &Expr) -> (y: Expr)
        ensures
            final(self).variables_cache() == old(self).variables_cache(),
            old(self).expr_cache().contains_key(x.0) ==> *final(self) == *old(self) && (
            exists|i: int|
                old(self).expr_cache().first_match(x.0, i) && handle_same(old(self).expr_cache()@[i].1, y.0)),
            !old(self).expr_cache().contains_key(x.0) ==> (exists|p: (
                HirpdagRef<ExprData, ImplRef<ExprStorage>>,
                HirpdagRef<ExprData, ImplRef<ExprStorage>>,
            )|
                final(self).expr_cache()@ == old(self).expr_cache()@.push(p) && handle_same(p.0, x.0)
                    && handle_same(p.1, y.0)),
    {
        if let Some(y) = self.cache_expr.get(&x.0) {
            return Expr(y);
        }
        let y = self.rewriter.rewrite_expr(x);
        self.cache_expr.insert(x.0.clone(), y.0.clone());
        y
    }

    fn rewrite_variables(&mut self, x: &Variables) -> (y: Variables)
        ensures
            final(self).expr_cache() == old(self).expr_cache(),
            old(self).variables_cache().contains_key(x.0) ==> *final(self) == *old(self) && (
            exists|i: int|
                old(self).variables_cache().first_match(x.0, i) && handle_same(old(self).variables_cache()@[i].1, y.0)),
            !old(self).variables_cache().contains_key(x.0) ==> (exists|p: (
                HirpdagRef<VariablesData, ImplRef<VariablesStorage>>,
                HirpdagRef<VariablesData, ImplRef<VariablesStorage>>,
            )|
                final(self).variables_cache()@ == old(self).variables_cache()@.push(p) && handle_same(p.0, x.0)
                    && handle_same(p.1, y.0)),
    {
        if let Some(y) = self.cache_variables.get(&x.0) {
            return Variables(y);
        }
        let y = self.rewriter.rewrite_variables(x);
        self.cache_variables.insert(x.0.clone(), y.0.clone());
        y
    }
}


// ==== Laws

/// The stored summaries of a node's operands: the elements' metadata for a
/// sum or product, nothing for a number or a variable.
pub open spec fn expr_children_metas(d: ExprData) -> Seq<HirpdagMeta> {
    match d.x {
        ExprKind::Add(v) => v@.map_values(|e: Expr| e.0.meta()),
        ExprKind::Mul(v) => v@.map_values(|e: Expr| e.0.meta()),
        _ => Seq::empty(),
    }
}

/// Metadata fold correctness for `Expr` nodes: the stored summary is the
/// fold of the operands' stored summaries, with count and height each one
/// more, saturating, and the same flags.
pub proof fn lemma_expr_meta_fold(r: &Expr)
    requires
        r.0.meta_ok(),
    ensures
        r.0.meta() == crate::meta::seq_meta_fold(expr_children_metas(r.0.data()))
            .spec_increment(),
{
    let ch = expr_children_metas(r.0.data());
    match r.0.data().x {
        ExprKind::Add(v) => {
            assert(v@.map_values(|e: Expr| e.compute_meta_spec()) =~= v@.map_values(
                |e: Expr| e.0.meta(),
            ));
        },
        ExprKind::Mul(v) => {
            assert(v@.map_values(|e: Expr| e.compute_meta_spec()) =~= v@.map_values(
                |e: Expr| e.0.meta(),
            ));
        },
        _ => {},
    }
    crate::meta::lemma_fold_zero(crate::meta::seq_meta_fold(ch));
    crate::meta::lemma_fold_zero(crate::meta::seq_meta_fold(ch).spec_increment());
}

/// The count sentence of the fold law, spelled out: a node counts itself
/// and the saturating sum of its operands' counts.
pub proof fn lemma_expr_meta_count(r: &Expr)
    requires
        r.0.meta_ok(),
    ensures
        crate::meta::seq_count_sum(expr_children_metas(r.0.data())) + 1 <= u32::MAX
            ==> r.0.meta().count == crate::meta::seq_count_sum(expr_children_metas(r.0.data()))
            + 1,
        crate::meta::seq_count_sum(expr_children_metas(r.0.data())) + 1 > u32::MAX
            ==> r.0.meta().count == u32::MAX,
{
    lemma_expr_meta_fold(r);
    crate::meta::lemma_seq_meta_fold_fields(expr_children_metas(r.0.data()));
}

} // verus!
