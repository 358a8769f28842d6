use hirpdag::meta::HirpdagComputeMeta;
use hirpdag::meta::HirpdagMeta;
use hirpdag::meta::HirpdagMetaCountType;
use hirpdag::meta::HirpdagMetaFlagType;
use hirpdag::meta::HirpdagMetaHeightType;

#[test]
fn test_compute_meta_i32() {
    let i = 14i32;
    let meta = i.hirpdag_compute_meta();
    assert_eq!(meta, HirpdagMeta::zero());
}

#[test]
fn test_meta_fold() {
    let meta1 = HirpdagMeta { count: 2, height: 2, flags: 3 };
    let meta2 = HirpdagMeta { count: 7, height: 3, flags: 5 };
    let meta = meta1.fold(meta2);
    assert_eq!(meta, HirpdagMeta { count: 9, height: 3, flags: 7 });
}

#[test]
fn test_meta_fold_saturated() {
    let meta1 = HirpdagMeta {
        count: HirpdagMetaCountType::MAX - 10,
        height: 2,
        flags: HirpdagMetaFlagType::MAX,
    };
    let meta2 = HirpdagMeta { count: 17, height: 3, flags: 5 };
    let meta = meta1.fold(meta2);
    assert_eq!(
        meta,
        HirpdagMeta {
            count: HirpdagMetaCountType::MAX,
            height: 3,
            flags: HirpdagMetaFlagType::MAX,
        }
    );
}

#[test]
fn test_meta_fold_ref() {
    let meta1 = HirpdagMeta { count: 2, height: 2, flags: 3 };
    let meta2 = HirpdagMeta { count: 7, height: 3, flags: 5 };
    let meta = meta1.fold_ref(&meta2);
    assert_eq!(meta, HirpdagMeta { count: 9, height: 3, flags: 7 });
}

#[test]
fn test_meta_add_flags() {
    let meta1 = HirpdagMeta { count: 2, height: 2, flags: 3 };
    let meta = meta1.add_flags(4);
    assert_eq!(meta, HirpdagMeta { count: 2, height: 2, flags: 7 });
    assert_eq!(meta.get_count(), 2);
    assert_eq!(meta.get_height(), 2);
    assert_eq!(meta.get_flags(), 7);
}

#[test]
fn test_meta_increment() {
    let meta1 = HirpdagMeta { count: 9, height: 3, flags: 7 };
    let meta = meta1.increment();
    assert_eq!(meta, HirpdagMeta { count: 10, height: 4, flags: 7 });
}

#[test]
fn test_meta_increment_saturated() {
    let meta1 = HirpdagMeta {
        count: HirpdagMetaCountType::MAX,
        height: HirpdagMetaHeightType::MAX,
        flags: 7,
    };
    let meta = meta1.increment();
    assert_eq!(
        meta,
        HirpdagMeta {
            count: HirpdagMetaCountType::MAX,
            height: HirpdagMetaHeightType::MAX,
            flags: 7,
        }
    );
}
