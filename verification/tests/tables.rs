use hirpdag::data::InternData;
use hirpdag::hashcons::HirpdagStorage;
use hirpdag::meta::HirpdagComputeMeta;
use hirpdag::meta::HirpdagMeta;
use hirpdag::reference::Reference;
use hirpdag::reference_arc::RefArc;
use hirpdag::reference_arc::RefArcWeak;
use hirpdag::reference_rc::RefRc;
use hirpdag::reference_rc::RefRcWeak;
use hirpdag::schema_even::EvenNumberData;
use hirpdag::table::BuildTableDefault;
use hirpdag::table::BuildTableShared;
use hirpdag::table::Table;
use hirpdag::table::TableShared;
use hirpdag::table_hashmap_fallback_weak::TableHashmapFallbackWeak;
use hirpdag::table_tov_weak_table::TableTovWeakTable;
use hirpdag::table_vec_linear_weak::TableVecLinearWeak;
use hirpdag::table_vec_sorted_weak::TableVecSortedWeak;
use hirpdag::tableshared_mutex::BuildTableSharedMutex;
use hirpdag::tableshared_mutex::TableSharedMutex;
use hirpdag::tableshared_sharded::BuildTableSharedSharded;
use hirpdag::tableshared_sharded::TableSharedSharded;

type Storage = HirpdagStorage<EvenNumberData>;

fn storage(a: u32) -> Storage {
    HirpdagStorage { hirpdag_meta: HirpdagMeta::zero(), hirpdag_data: EvenNumberData { a } }
}

fn finalize(s: Storage) -> Storage {
    HirpdagStorage {
        hirpdag_meta: s.hirpdag_data.hirpdag_compute_meta(),
        hirpdag_data: s.hirpdag_data,
    }
}

fn exercise_table<R, T>(mut t: T)
where
    R: Reference<Storage>,
    T: Table<Storage, R>,
{
    let v5 = storage(5);
    let hash5 = v5.hash_data();
    assert!(t.get(hash5, &v5).is_none());

    let h1 = t.get_or_insert(hash5, storage(5), finalize);
    assert_eq!(R::strong_deref(&h1).hirpdag_data.a, 5);
    assert_eq!(R::strong_deref(&h1).hirpdag_meta.count, 1);

    // A second insertion of the same value finds the live cell.
    let h2 = t.get_or_insert(hash5, storage(5), finalize);
    assert!(R::strong_ptr_eq(&h1, &h2));

    // A lookup finds it too.
    let h3 = t.get(hash5, &v5).unwrap();
    assert!(R::strong_ptr_eq(&h1, &h3));

    // A different value gets a different cell, under its own hash.
    let v7 = storage(7);
    let hash7 = v7.hash_data();
    let h7 = t.get_or_insert(hash7, storage(7), finalize);
    assert!(!R::strong_ptr_eq(&h1, &h7));
    assert_eq!(R::strong_deref(&h7).hirpdag_data.a, 7);

    // Values with one hash share the fallback or scan path.
    let h5b = t.get(hash5, &v5).unwrap();
    assert!(R::strong_ptr_eq(&h1, &h5b));
}

#[test]
fn table_linear_arc_test() {
    exercise_table::<RefArc<Storage>, _>(TableVecLinearWeak::<
        Storage,
        RefArc<Storage>,
        RefArcWeak<Storage>,
    >::empty());
}

#[test]
fn table_sorted_arc_test() {
    exercise_table::<RefArc<Storage>, _>(TableVecSortedWeak::<
        Storage,
        RefArc<Storage>,
        RefArcWeak<Storage>,
    >::empty());
}

#[test]
fn table_hashmap_fallback_arc_test() {
    exercise_table::<RefArc<Storage>, _>(TableHashmapFallbackWeak::<
        Storage,
        RefArc<Storage>,
        RefArcWeak<Storage>,
        TableVecLinearWeak<Storage, RefArc<Storage>, RefArcWeak<Storage>>,
    >::empty());
}

#[test]
fn table_linear_rc_test() {
    exercise_table::<RefRc<Storage>, _>(TableVecLinearWeak::<
        Storage,
        RefRc<Storage>,
        RefRcWeak<Storage>,
    >::empty());
}

#[test]
fn table_sorted_rc_test() {
    exercise_table::<RefRc<Storage>, _>(TableVecSortedWeak::<
        Storage,
        RefRc<Storage>,
        RefRcWeak<Storage>,
    >::empty());
}

#[test]
fn tableshared_sharded_test() {
    type Inner = TableVecLinearWeak<Storage, RefArc<Storage>, RefArcWeak<Storage>>;
    let builder = BuildTableSharedSharded::<
        Storage,
        RefArc<Storage>,
        Inner,
        BuildTableDefault<Inner>,
    >::with_builders(BuildTableDefault::default());
    let ts: TableSharedSharded<Storage, RefArc<Storage>, Inner> = builder.build_tableshared();

    // Values land in shards by hash; equal values meet in one shard.
    let mut handles = Vec::new();
    for a in 0..16u32 {
        handles.push(ts.get_or_insert(storage(a), finalize));
    }
    for a in 0..16u32 {
        let again = ts.get_or_insert(storage(a), finalize);
        assert!(RefArc::strong_ptr_eq(&handles[a as usize], &again));
    }
}

#[test]
fn tableshared_mutex_test() {
    type Inner = TableVecSortedWeak<Storage, RefArc<Storage>, RefArcWeak<Storage>>;
    let builder = BuildTableSharedMutex::<
        Storage,
        RefArc<Storage>,
        Inner,
        BuildTableDefault<Inner>,
    >::with_builders(BuildTableDefault::default());
    let ts: TableSharedMutex<Storage, RefArc<Storage>, Inner> = builder.build_tableshared();

    let h1 = ts.get_or_insert(storage(9), finalize);
    let h2 = ts.get_or_insert(storage(9), finalize);
    assert!(RefArc::strong_ptr_eq(&h1, &h2));
    let h3 = ts.get(&storage(9)).unwrap();
    assert!(RefArc::strong_ptr_eq(&h1, &h3));
    assert!(ts.get(&storage(11)).is_none());
}

#[test]
fn table_weak_set_test() {
    let mut t = TableTovWeakTable::<EvenNumberData>::empty();
    let d = EvenNumberData { a: 5 };
    assert!(t.get(0, &d).is_none());

    let h1 = t.get_or_insert(0, EvenNumberData { a: 5 }, |x| x);
    let h2 = t.get_or_insert(0, EvenNumberData { a: 5 }, |x| x);
    assert!(RefArc::strong_ptr_eq(&h1, &h2));
    assert_eq!(RefArc::strong_deref(&h1).a, 5);
    let h3 = t.get(0, &d).unwrap();
    assert!(RefArc::strong_ptr_eq(&h1, &h3));

    // Drop every strong handle: the entry decays, and the set accepts a
    // fresh cell for the same value.
    drop(h1);
    drop(h2);
    drop(h3);
    let h4 = t.get_or_insert(0, EvenNumberData { a: 5 }, |x| x);
    assert_eq!(RefArc::strong_deref(&h4).a, 5);
}
