use titan_engine::{require_parent, Error, Handle, HandleRegistry};

#[test]
fn inserted_value_resolves() {
    let mut r: HandleRegistry<u32> = HandleRegistry::new();
    let a = r.insert(7);
    let b = r.insert(9);
    assert_eq!(r.get(a), Some(&7));
    assert_eq!(r.get(b), Some(&9));
    assert!(r.contains(a));
    assert_ne!(a, b);
}

#[test]
fn removed_handle_never_resolves_after_slot_reuse() {
    let mut r: HandleRegistry<u32> = HandleRegistry::new();
    let a = r.insert(1);
    assert_eq!(r.remove(a), Some(1));
    assert_eq!(r.get(a), None);
    let b = r.insert(2);
    assert_eq!(b.index, a.index);
    assert_eq!(b.generation, a.generation + 1);
    assert_eq!(r.get(a), None);
    assert_eq!(r.get(b), Some(&2));
    assert_eq!(r.remove(a), None);
    assert_eq!(r.get(b), Some(&2));
}

#[test]
fn insert_reuses_lowest_vacant_slot() {
    let mut r: HandleRegistry<u32> = HandleRegistry::new();
    let a = r.insert(10);
    let b = r.insert(11);
    let c = r.insert(12);
    r.remove(c);
    r.remove(a);
    let d = r.insert(13);
    assert_eq!(d.index, 0);
    let e = r.insert(14);
    assert_eq!(e.index, 2);
    let f = r.insert(15);
    assert_eq!(f.index, 3);
    assert_eq!(r.get(b), Some(&11));
    assert_eq!(r.capacity(), 4);
}

#[test]
fn stale_removal_is_ignored() {
    let mut r: HandleRegistry<u32> = HandleRegistry::new();
    let a = r.insert(5);
    let forged = Handle { index: a.index, generation: a.generation + 3 };
    assert_eq!(r.remove(forged), None);
    assert_eq!(r.get(a), Some(&5));
    let outside = Handle { index: 40, generation: 0 };
    assert_eq!(r.get(outside), None);
    assert_eq!(r.remove(outside), None);
}

#[test]
fn get_mut_changes_only_that_value() {
    let mut r: HandleRegistry<u32> = HandleRegistry::new();
    let a = r.insert(1);
    let b = r.insert(2);
    if let Some(v) = r.get_mut(a) {
        *v = 100;
    }
    assert_eq!(r.get(a), Some(&100));
    assert_eq!(r.get(b), Some(&2));
    r.remove(b);
    assert!(r.get_mut(b).is_none());
}

#[test]
fn insert_all_keeps_order() {
    let mut r: HandleRegistry<u32> = HandleRegistry::new();
    let keep = r.insert(0);
    let gone = r.insert(1);
    r.remove(gone);
    let hs = r.insert_all(vec![20, 21, 22]);
    assert_eq!(hs.len(), 3);
    assert_eq!(hs[0].index, 1);
    assert_eq!(r.get(hs[0]), Some(&20));
    assert_eq!(r.get(hs[1]), Some(&21));
    assert_eq!(r.get(hs[2]), Some(&22));
    assert_eq!(r.get(keep), Some(&0));
}

#[test]
fn missing_parent_is_other_error() {
    let mut r: HandleRegistry<u32> = HandleRegistry::new();
    let a = r.insert(3);
    assert_eq!(require_parent(&r, a, "device not found").ok(), Some(&3));
    r.remove(a);
    match require_parent(&r, a, "device not found") {
        Err(Error::Other { message, source }) => {
            assert_eq!(message, "device not found");
            assert!(source.is_none());
        }
        _ => panic!("expected a local error"),
    }
}

#[test]
fn live_handles_lists_each_live_value_once() {
    let mut r: HandleRegistry<u32> = HandleRegistry::new();
    let a = r.insert(1);
    let b = r.insert(2);
    let c = r.insert(3);
    r.remove(b);
    assert_eq!(r.live_handles(), vec![a, c]);
    let d = r.insert(4);
    assert_eq!(r.live_handles(), vec![a, d, c]);
    assert!(HandleRegistry::<u32>::new().live_handles().is_empty());
}
