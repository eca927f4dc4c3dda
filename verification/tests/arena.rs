use sync_stores::arena::Arena;

#[test]
fn value_lives_while_a_strong_reference_is_out() {
    let mut arena: Arena<String> = Arena::new();
    assert_eq!(arena.len(), 0);
    let first = arena.insert("a".to_string());
    assert_eq!(first.index(), 0);
    assert_eq!(arena.len(), 1);
    assert_eq!(arena.strong_count(&first), 1);
    assert_eq!(arena.weak_count(&first), 0);
    assert!(arena.is_live(0));
    let second = arena.acquire(&first).expect("the value lives");
    assert!(first.ptr_eq(&second));
    assert_eq!(arena.strong_count(&first), 2);
    assert_eq!(arena.release(second), None);
    assert_eq!(arena.strong_count(&first), 1);
    assert_eq!(arena.get(&first), Some(&"a".to_string()));
    assert_eq!(arena.release(first), Some("a".to_string()));
    assert!(!arena.is_live(0));
    assert_eq!(arena.len(), 1);
}

#[test]
fn weak_reference_upgrades_only_while_the_value_lives() {
    let mut arena: Arena<u32> = Arena::new();
    let strong = arena.insert(5);
    let weak = arena.downgrade(&strong).expect("the value lives");
    assert_eq!(weak.index(), strong.index());
    assert_eq!(arena.weak_count(&strong), 1);
    assert_eq!(arena.strong_count(&strong), 1);
    let again = arena.upgrade(&weak).expect("the value lives");
    assert_eq!(arena.strong_count(&strong), 2);
    assert_eq!(arena.release(again), None);
    assert_eq!(arena.release(strong), Some(5));
    assert!(arena.upgrade(&weak).is_none());
    arena.release_weak(weak);
}

#[test]
fn slots_are_not_reused() {
    let mut arena: Arena<u32> = Arena::new();
    let a = arena.insert(1);
    assert_eq!(arena.release(a), Some(1));
    let b = arena.insert(2);
    assert_eq!(b.index(), 1);
    assert!(!arena.is_live(0));
    assert!(arena.is_live(1));
    assert!(!arena.is_live(2));
}

#[test]
fn value_can_be_changed_in_place() {
    let mut arena: Arena<u32> = Arena::new();
    let a = arena.insert(1);
    *arena.get_mut(&a).unwrap() = 9;
    assert_eq!(arena.get(&a), Some(&9));
    assert_eq!(arena.strong_count(&a), 1);
    let b = arena.insert(2);
    assert_eq!(arena.get(&b), Some(&2));
    assert_eq!(arena.release(a), Some(9));
    assert_eq!(arena.release(b), Some(2));
}

#[test]
fn references_to_a_dead_slot_do_nothing() {
    let mut arena: Arena<u32> = Arena::new();
    let a = arena.insert(1);
    let b = arena.acquire(&a).unwrap();
    assert_eq!(arena.release(a), None);
    assert_eq!(arena.release(b), Some(1));
    let mut other: Arena<u32> = Arena::new();
    let foreign = other.insert(3);
    assert!(arena.acquire(&foreign).is_none());
    assert!(arena.downgrade(&foreign).is_none());
    assert!(arena.get(&foreign).is_none());
    assert_eq!(arena.strong_count(&foreign), 0);
    assert_eq!(arena.release(foreign), None);
}
