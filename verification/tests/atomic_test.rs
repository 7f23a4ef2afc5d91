use std::sync::atomic::{AtomicPtr, Ordering};
use stm::atomic::Atomic;

#[test]
fn new_without_a_value_holds_null() {
    let cell: Atomic<u64> = Atomic::new(None);
    assert!(cell.get_inner().load(Ordering::Acquire).is_null());
}

#[test]
fn new_with_a_value_holds_its_address() {
    let cell = Atomic::new(Some(Box::new(7u64)));
    let held = cell.get_inner().load(Ordering::Acquire);
    assert!(!held.is_null());
    assert_eq!(held, cell.get_inner().load(Ordering::Acquire));
}

#[test]
fn two_cells_hold_two_values() {
    let first = Atomic::new(Some(Box::new(1u8)));
    let second = Atomic::new(Some(Box::new(1u8)));
    assert_ne!(
        first.get_inner().load(Ordering::Acquire),
        second.get_inner().load(Ordering::Acquire)
    );
}

#[test]
fn get_inner_mut_hands_out_the_slot_itself() {
    let mut cell = Atomic::new(Some(Box::new(3u32)));
    let held = cell.get_inner().load(Ordering::Acquire);
    *cell.get_inner_mut() = AtomicPtr::default();
    assert!(cell.get_inner().load(Ordering::Acquire).is_null());
    cell.get_inner_mut().store(held, Ordering::Release);
    assert_eq!(cell.get_inner().load(Ordering::Acquire), held);
}
