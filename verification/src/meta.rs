//! Folded subtree metadata: node count, height and OR-combined flag bits.
//!
//! All arithmetic saturates at the type's maximum; overflow is clamped, never
//! an error.

use vstd::prelude::*;

verus! {

pub type HirpdagMetaCountType = u32;

pub type HirpdagMetaHeightType = u16;

pub type HirpdagMetaFlagType = u16;

/// Summary of one node's subtree, computed once when the node is interned.
#[derive(Clone, Copy, Debug, PartialEq, Eq, Structural)]
pub struct HirpdagMeta {
    pub count: HirpdagMetaCountType,
    pub height: HirpdagMetaHeightType,
    pub flags: HirpdagMetaFlagType,
}

impl HirpdagMeta {
    /// The fold identity: all-zero metadata.
    pub open spec fn spec_zero() -> HirpdagMeta {
        HirpdagMeta { count: 0, height: 0, flags: 0 }
    }

    /// Combining two summaries: counts add (saturating), heights take the
    /// maximum, flag bits union.
    pub open spec fn spec_fold(self, other: HirpdagMeta) -> HirpdagMeta {
        HirpdagMeta {
            count: if self.count + other.count > u32::MAX {
                u32::MAX
            } else {
                (self.count + other.count) as u32
            },
            height: if self.height >= other.height {
                self.height
            } else {
                other.height
            },
            flags: self.flags | other.flags,
        }
    }

    /// One more node on top: count and height each grow by one, saturating.
    pub open spec fn spec_increment(self) -> HirpdagMeta {
        HirpdagMeta {
            count: if self.count + 1 > u32::MAX {
                u32::MAX
            } else {
                (self.count + 1) as u32
            },
            height: if self.height + 1 > u16::MAX {
                u16::MAX
            } else {
                (self.height + 1) as u16
            },
            flags: self.flags,
        }
    }

    /// Union this node's own flag bits into the summary.
    pub open spec fn spec_add_flags(self, flag: HirpdagMetaFlagType) -> HirpdagMeta {
        HirpdagMeta { count: self.count, height: self.height, flags: self.flags | flag }
    }

    pub fn zero() -> (m: Self)
        ensures
            m == Self::spec_zero(),
    {
        Self { count: 0, height: 0, flags: 0 }
    }

    pub fn increment(self) -> (m: Self)
        ensures
            m == self.spec_increment(),
    {
        Self {
            count: self.count.saturating_add(1),
            height: self.height.saturating_add(1),
            flags: self.flags,
        }
    }

    pub fn add_flags(self, flag: HirpdagMetaFlagType) -> (m: Self)
        ensures
            m == self.spec_add_flags(flag),
    {
        Self { count: self.count, height: self.height, flags: self.flags | flag }
    }

    pub fn fold(self, other: Self) -> (m: Self)
        ensures
            m == self.spec_fold(other),
    {
        let count = self.count.saturating_add(other.count);
        let height = if self.height >= other.height {
            self.height
        } else {
            other.height
        };
        let flags = self.flags | other.flags;
        Self { count, height, flags }
    }

    pub fn fold_ref(self, other: &Self) -> (m: Self)
        ensures
            m == self.spec_fold(*other),
    {
        let count = self.count.saturating_add(other.count);
        let height = if self.height >= other.height {
            self.height
        } else {
            other.height
        };
        let flags = self.flags | other.flags;
        Self { count, height, flags }
    }

    pub fn get_count(&self) -> (c: HirpdagMetaCountType)
        ensures
            c == self.count,
    {
        self.count
    }

    pub fn get_height(&self) -> (h: HirpdagMetaHeightType)
        ensures
            h == self.height,
    {
        self.height
    }

    pub fn get_flags(&self) -> (f: HirpdagMetaFlagType)
        ensures
            f == self.flags,
    {
        self.flags
    }
}

/// Folding a whole sequence of summaries, left to right, starting from zero.
pub open spec fn seq_meta_fold(s: Seq<HirpdagMeta>) -> HirpdagMeta
    decreases s.len(),
{
    if s.len() == 0 {
        HirpdagMeta::spec_zero()
    } else {
        seq_meta_fold(s.drop_last()).spec_fold(s.last())
    }
}

/// The saturating sum of the summaries' counts.
pub open spec fn seq_count_sum(s: Seq<HirpdagMeta>) -> u32
    decreases s.len(),
{
    if s.len() == 0 {
        0
    } else {
        if seq_count_sum(s.drop_last()) + s.last().count > u32::MAX {
            u32::MAX
        } else {
            (seq_count_sum(s.drop_last()) + s.last().count) as u32
        }
    }
}

/// The maximum of the summaries' heights.
pub open spec fn seq_height_max(s: Seq<HirpdagMeta>) -> u16
    decreases s.len(),
{
    if s.len() == 0 {
        0
    } else {
        if seq_height_max(s.drop_last()) >= s.last().height {
            seq_height_max(s.drop_last())
        } else {
            s.last().height
        }
    }
}

/// The union of the summaries' flag bits.
pub open spec fn seq_flags_or(s: Seq<HirpdagMeta>) -> u16
    decreases s.len(),
{
    if s.len() == 0 {
        0
    } else {
        seq_flags_or(s.drop_last()) | s.last().flags
    }
}

/// Folding summaries combines each field on its own: counts add with
/// saturation, heights take the maximum, flag bits union.
pub proof fn lemma_seq_meta_fold_fields(s: Seq<HirpdagMeta>)
    ensures
        seq_meta_fold(s).count == seq_count_sum(s),
        seq_meta_fold(s).height == seq_height_max(s),
        seq_meta_fold(s).flags == seq_flags_or(s),
    decreases s.len(),
{
    if s.len() > 0 {
        lemma_seq_meta_fold_fields(s.drop_last());
    }
}

/// Saturation: combining counts never wraps.  When the sum fits, the fold
/// carries it exactly; when it would overflow, the fold yields the type's
/// maximum.
pub proof fn lemma_fold_saturates(a: HirpdagMeta, b: HirpdagMeta)
    ensures
        a.count + b.count <= u32::MAX ==> a.spec_fold(b).count == a.count + b.count,
        a.count + b.count > u32::MAX ==> a.spec_fold(b).count == u32::MAX,
        a.spec_fold(b).height == if a.height >= b.height {
            a.height
        } else {
            b.height
        },
        a.spec_fold(b).flags == a.flags | b.flags,
{
}

/// Saturation: counting one more node never wraps either.
pub proof fn lemma_increment_saturates(a: HirpdagMeta)
    ensures
        a.count < u32::MAX ==> a.spec_increment().count == a.count + 1,
        a.count == u32::MAX ==> a.spec_increment().count == u32::MAX,
        a.height < u16::MAX ==> a.spec_increment().height == a.height + 1,
        a.height == u16::MAX ==> a.spec_increment().height == u16::MAX,
        a.spec_increment().flags == a.flags,
{
}

/// Zero is the fold identity, and contributing no flag bits changes
/// nothing.
pub proof fn lemma_fold_zero(m: HirpdagMeta)
    ensures
        HirpdagMeta::spec_zero().spec_fold(m) == m,
        m.spec_fold(HirpdagMeta::spec_zero()) == m,
        m.spec_add_flags(0) == m,
{
    assert(0u16 | m.flags == m.flags) by (bit_vector);
    assert(m.flags | 0u16 == m.flags) by (bit_vector);
}

/// The metadata contribution of a value: zero for primitives and opaque
/// strings, the stored summary for an interned handle, and the fold of the
/// parts for options and sequences.
pub trait HirpdagComputeMeta {
    spec fn compute_meta_spec(&self) -> HirpdagMeta;

    fn hirpdag_compute_meta(&self) -> (m: HirpdagMeta)
        ensures
            m == self.compute_meta_spec(),
    ;
}

impl HirpdagComputeMeta for String {
    open spec fn compute_meta_spec(&self) -> HirpdagMeta {
        HirpdagMeta::spec_zero()
    }

    fn hirpdag_compute_meta(&self) -> (m: HirpdagMeta) {
        HirpdagMeta::zero()
    }
}

impl HirpdagComputeMeta for i32 {
    open spec fn compute_meta_spec(&self) -> HirpdagMeta {
        HirpdagMeta::spec_zero()
    }

    fn hirpdag_compute_meta(&self) -> (m: HirpdagMeta) {
        HirpdagMeta::zero()
    }
}

impl HirpdagComputeMeta for u32 {
    open spec fn compute_meta_spec(&self) -> HirpdagMeta {
        HirpdagMeta::spec_zero()
    }

    fn hirpdag_compute_meta(&self) -> (m: HirpdagMeta) {
        HirpdagMeta::zero()
    }
}

impl<T: HirpdagComputeMeta> HirpdagComputeMeta for Option<T> {
    open spec fn compute_meta_spec(&self) -> HirpdagMeta {
        match self {
            Some(x) => x.compute_meta_spec(),
            None => HirpdagMeta::spec_zero(),
        }
    }

    fn hirpdag_compute_meta(&self) -> (m: HirpdagMeta) {
        match self {
            Some(x) => x.hirpdag_compute_meta(),
            None => HirpdagMeta::zero(),
        }
    }
}

impl<T: HirpdagComputeMeta> HirpdagComputeMeta for Vec<T> {
    open spec fn compute_meta_spec(&self) -> HirpdagMeta {
        seq_meta_fold(self@.map_values(|x: T| x.compute_meta_spec()))
    }

    fn hirpdag_compute_meta(&self) -> (m: HirpdagMeta) {
        let ghost metas = self@.map_values(|x: T| x.compute_meta_spec());
        let mut acc = HirpdagMeta::zero();
        let mut i: usize = 0;
        while i < self.len()
            invariant
                0 <= i <= self.len(),
                metas == self@.map_values(|x: T| x.compute_meta_spec()),
                acc == seq_meta_fold(metas.take(i as int)),
            decreases self.len() - i,
        {
            let em = self[i].hirpdag_compute_meta();
            proof {
                assert(metas.take(i + 1 as int).drop_last() =~= metas.take(i as int));
                assert(metas.take(i + 1 as int).last() == metas[i as int]);
            }
            acc = acc.fold(em);
            i = i + 1;
        }
        proof {
            assert(metas.take(self.len() as int) =~= metas);
        }
        acc
    }
}

} // verus!
