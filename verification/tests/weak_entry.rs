use std::cmp::Ordering;

use hirpdag::data::InternData;
use hirpdag::hashcons::HirpdagStorage;
use hirpdag::meta::HirpdagMeta;
use hirpdag::reference::Reference;
use hirpdag::reference::ReferenceWeak;
use hirpdag::reference_arc::RefArc;
use hirpdag::reference_arc::RefArcWeak;
use hirpdag::schema_even::EvenNumberData;
use hirpdag::weak_entry::WeakEntry;

type Storage = HirpdagStorage<EvenNumberData>;

fn storage(a: u32) -> Storage {
    HirpdagStorage { hirpdag_meta: HirpdagMeta::zero(), hirpdag_data: EvenNumberData { a } }
}

#[test]
fn weak_entry_get_test() {
    let v = storage(5);
    let hash = v.hash_data();
    let strong: RefArc<Storage> = RefArc::new(storage(5));
    let weak: RefArcWeak<Storage> = RefArcWeak::weak_downgrade(&strong);
    let entry: WeakEntry<Storage, RefArc<Storage>, RefArcWeak<Storage>> =
        WeakEntry::new(hash, weak);

    // A matching hash and a live equal value yield the stored handle.
    let hit = entry.get(hash, &v).unwrap();
    assert!(RefArc::strong_ptr_eq(&hit, &strong));

    // A mismatched hash short-circuits to absence.
    assert!(entry.get(hash.wrapping_add(1), &v).is_none());

    // A matching hash with a different value misses.
    assert!(entry.get(hash, &storage(6)).is_none());
}

#[test]
fn weak_entry_get_existing_near_test() {
    let v = storage(5);
    let hash = v.hash_data();
    let strong: RefArc<Storage> = RefArc::new(storage(5));
    let weak: RefArcWeak<Storage> = RefArcWeak::weak_downgrade(&strong);
    let entry: WeakEntry<Storage, RefArc<Storage>, RefArcWeak<Storage>> =
        WeakEntry::new(hash, weak);

    // A hash mismatch is told apart from a miss under a matching hash.
    assert!(entry.get_existing_near(hash.wrapping_add(1), &v).is_err());
    let near = entry.get_existing_near(hash, &v).unwrap();
    assert!(near.is_some());
}

#[test]
fn weak_entry_decayed_test() {
    let v = storage(5);
    let hash = v.hash_data();
    let strong: RefArc<Storage> = RefArc::new(storage(5));
    let weak: RefArcWeak<Storage> = RefArcWeak::weak_downgrade(&strong);
    let entry: WeakEntry<Storage, RefArc<Storage>, RefArcWeak<Storage>> =
        WeakEntry::new(hash, weak);

    drop(strong);

    // The entry's cell has decayed: probing tolerates it as absence.
    assert!(entry.get(hash, &v).is_none());
}

#[test]
fn weak_entry_hash_cmp_test() {
    let strong: RefArc<Storage> = RefArc::new(storage(5));
    let weak: RefArcWeak<Storage> = RefArcWeak::weak_downgrade(&strong);
    let entry: WeakEntry<Storage, RefArc<Storage>, RefArcWeak<Storage>> = WeakEntry::new(7, weak);

    assert_eq!(entry.hash_cmp(&9), Ordering::Less);
    assert_eq!(entry.hash_cmp(&7), Ordering::Equal);
    assert_eq!(entry.hash_cmp(&3), Ordering::Greater);
}
