use aleo::handle::{Handle, HandleTable};

#[test]
fn insert_get_remove() {
    let mut t: HandleTable<u32> = HandleTable::new();
    let a = t.insert(10);
    let b = t.insert(20);
    assert_ne!(a, b);
    assert_eq!(t.get(a), Some(&10));
    assert_eq!(t.get(b), Some(&20));
    assert_eq!(t.remove(Some(a)), Some(10));
    assert_eq!(t.get(a), None);
    assert_eq!(t.get(b), Some(&20));
}

#[test]
fn remove_null_is_noop() {
    let mut t: HandleTable<u32> = HandleTable::new();
    let a = t.insert(5);
    assert_eq!(t.remove(None), None);
    assert_eq!(t.remove(None), None);
    assert_eq!(t.get(a), Some(&5));
}

#[test]
fn double_free_is_reported() {
    let mut t: HandleTable<u32> = HandleTable::new();
    let a = t.insert(5);
    assert_eq!(t.remove(Some(a)), Some(5));
    assert_eq!(t.remove(Some(a)), None);
}

#[test]
fn stale_handle_stays_dead_after_slot_reuse() {
    let mut t: HandleTable<u32> = HandleTable::new();
    let a = t.insert(1);
    t.remove(Some(a));
    let b = t.insert(2);
    assert_eq!(b.index, a.index);
    assert_eq!(b.generation, a.generation + 1);
    assert_eq!(t.get(a), None);
    assert_eq!(t.get(b), Some(&2));
    assert_eq!(t.remove(Some(a)), None);
    assert_eq!(t.get(b), Some(&2));
}

#[test]
fn unknown_handle_is_not_live() {
    let t: HandleTable<u32> = HandleTable::new();
    assert_eq!(t.get(Handle { index: 3, generation: 0 }), None);
}
