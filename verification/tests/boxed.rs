use native_boxed::boxed::BoxedMemoryManager;
use native_boxed::boxed::Boxed;
use native_boxed::boxed::{clone_then_release_leaves_source_intact, copy_then_deref_round_trip};
use native_boxed::heap::NativeHeap;

type U64Box = Boxed<u64, NativeHeap<u64>>;

#[test]
fn take_ownership_frees_exactly_once() {
    let mut mm: NativeHeap<u64> = NativeHeap::new(0);
    let p: usize = mm.allocate(7);
    let b: U64Box = Boxed::from_native_owned(&mm, p);
    assert_eq!(b.deref(&mm), 7);
    assert_eq!(b.deref(&mm), 7);
    assert_eq!(mm.free_count(), 0);
    b.release(&mut mm);
    assert_eq!(mm.free_count(), 1);
}

#[test]
fn native_allocation_frees_exactly_once() {
    let mut mm: NativeHeap<u64> = NativeHeap::new(0);
    let b: U64Box = Boxed::uninitialized(&mut mm);
    assert_eq!(b.deref(&mm), 0);
    assert!(b.is_owning());
    b.release(&mut mm);
    assert_eq!(mm.free_count(), 1);
}

#[test]
fn borrow_without_ownership_never_frees() {
    let mut mm: NativeHeap<u64> = NativeHeap::new(0);
    let q: usize = mm.allocate(11);
    let b: U64Box = Boxed::from_native_borrowed(&mm, q);
    assert_eq!(b.deref(&mm), 11);
    assert!(!b.is_owning());
    b.release(&mut mm);
    assert_eq!(mm.free_count(), 0);
    let again: U64Box = Boxed::from_native_borrowed(&mm, q);
    assert_eq!(again.deref(&mm), 11);
    again.release(&mut mm);
    assert_eq!(mm.free_count(), 0);
}

#[test]
fn clones_survive_release_of_the_source() {
    let mut mm: NativeHeap<u64> = NativeHeap::new(0);
    let p: usize = mm.allocate(41);
    let a: U64Box = Boxed::from_native_owned(&mm, p);
    let b: U64Box = a.clone_in(&mut mm);
    let c: U64Box = a.clone_in(&mut mm);
    a.release(&mut mm);
    assert_eq!(mm.free_count(), 1);
    assert_eq!(b.deref(&mm), 41);
    assert_eq!(c.deref(&mm), 41);
    b.release(&mut mm);
    assert_eq!(mm.free_count(), 2);
    assert_eq!(c.deref(&mm), 41);
    c.release(&mut mm);
    assert_eq!(mm.free_count(), 3);
}

#[test]
fn clone_of_a_borrowed_handle_is_owning() {
    let mut mm: NativeHeap<u64> = NativeHeap::new(0);
    let q: usize = mm.allocate(5);
    let borrowed: U64Box = Boxed::from_native_borrowed(&mm, q);
    let copy: U64Box = borrowed.clone_in(&mut mm);
    assert!(copy.is_owning());
    assert_eq!(copy.deref(&mm), 5);
    borrowed.release(&mut mm);
    assert_eq!(mm.free_count(), 0);
    copy.release(&mut mm);
    assert_eq!(mm.free_count(), 1);
}

#[test]
fn clone_is_independent_of_the_source() {
    let mut mm: NativeHeap<u64> = NativeHeap::new(0);
    let p: usize = mm.allocate(13);
    let a: U64Box = Boxed::from_native_owned(&mm, p);
    let b: U64Box = a.clone_in(&mut mm);
    b.set_value(&mut mm, 99);
    assert_eq!(a.deref(&mm), 13);
    assert_eq!(b.deref(&mm), 99);
    b.release(&mut mm);
    assert_eq!(a.deref(&mm), 13);
    a.release(&mut mm);
    assert_eq!(mm.free_count(), 2);
}

#[test]
fn null_is_rejected_by_every_checked_constructor() {
    let mut mm: NativeHeap<u64> = NativeHeap::new(0);
    let none_owned: Option<U64Box> = Boxed::try_from_native_owned(&mm, 0);
    assert!(none_owned.is_none());
    let none_borrowed: Option<U64Box> = Boxed::try_from_native_borrowed(&mm, 0);
    assert!(none_borrowed.is_none());
    let none_copy: Option<U64Box> = Boxed::try_from_native_copy(&mut mm, 0);
    assert!(none_copy.is_none());
    assert_eq!(mm.free_count(), 0);
}

#[test]
fn nonzero_is_accepted_by_the_checked_constructors() {
    let mut mm: NativeHeap<u64> = NativeHeap::new(0);
    let p: usize = mm.allocate(3);
    let some_owned: Option<U64Box> = Boxed::try_from_native_owned(&mm, p);
    let owned: U64Box = some_owned.unwrap();
    assert_eq!(owned.deref(&mm), 3);
    let some_copy: Option<U64Box> = Boxed::try_from_native_copy(&mut mm, p);
    let copied: U64Box = some_copy.unwrap();
    assert_eq!(copied.deref(&mm), 3);
    copied.release(&mut mm);
    owned.release(&mut mm);
    assert_eq!(mm.free_count(), 2);
}

#[test]
fn copy_round_trip_reads_the_source_value_back() {
    let mut mm: NativeHeap<u64> = NativeHeap::new(0);
    let p: usize = mm.allocate(123456789);
    let (handle, value) = copy_then_deref_round_trip(&mut mm, p);
    assert_eq!(value, 123456789);
    handle.release(&mut mm);
    assert_eq!(mm.free_count(), 1);
}

#[test]
fn from_native_copy_leaves_the_source_untouched() {
    let mut mm: NativeHeap<u64> = NativeHeap::new(0);
    let p: usize = mm.allocate(21);
    let b: U64Box = Boxed::from_native_copy(&mut mm, p);
    assert_eq!(b.deref(&mm), 21);
    b.set_value(&mut mm, 22);
    assert_eq!(b.deref(&mm), 22);
    let source: U64Box = Boxed::from_native_borrowed(&mm, p);
    assert_eq!(source.deref(&mm), 21);
    source.release(&mut mm);
    b.release(&mut mm);
    assert_eq!(mm.free_count(), 1);
}

#[test]
fn to_native_hands_out_the_wrapped_address() {
    let mut mm: NativeHeap<u64> = NativeHeap::new(0);
    let p: usize = mm.allocate(8);
    let mut b: U64Box = Boxed::from_native_owned(&mm, p);
    assert_eq!(b.to_native_borrowed(), p);
    assert_eq!(b.to_native_mutable(), p);
    b.release(&mut mm);
}

#[test]
fn writes_through_the_handle_are_read_back() {
    let mut mm: NativeHeap<u64> = NativeHeap::new(0);
    let b: U64Box = Boxed::uninitialized(&mut mm);
    b.set_value(&mut mm, 1000);
    assert_eq!(b.deref(&mm), 1000);
    b.set_value(&mut mm, 1001);
    assert_eq!(b.deref(&mm), 1001);
    b.release(&mut mm);
    assert_eq!(mm.free_count(), 1);
}

#[test]
fn clone_then_release_law_holds_on_a_borrowed_source() {
    let mut mm: NativeHeap<u64> = NativeHeap::new(0);
    let p: usize = mm.allocate(64);
    let a: U64Box = Boxed::from_native_borrowed(&mm, p);
    clone_then_release_leaves_source_intact(&a, &mut mm);
    assert_eq!(mm.free_count(), 1);
    assert_eq!(a.deref(&mm), 64);
    a.release(&mut mm);
    assert_eq!(mm.free_count(), 1);
}
