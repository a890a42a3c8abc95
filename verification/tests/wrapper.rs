use native_boxed::boxed::BoxedMemoryManager;
use native_boxed::heap::NativeHeap;
use native_boxed::wrapper::{Extent, ExtentBox, ExtentManager, Sprite, SpriteBox, SpriteManager};

fn extent_zero() -> Extent {
    Extent { width: 0, height: 0 }
}

fn sprite_zero() -> Sprite {
    Sprite { id: 0, extent: 0 }
}

#[test]
fn uninitialized_then_accessors_round_trip() {
    let mut mm: ExtentManager = NativeHeap::new(extent_zero());
    let mut e: ExtentBox = ExtentBox::uninitialized(&mut mm);
    assert_eq!(e.get_width(&mm), 0);
    assert_eq!(e.get_height(&mm), 0);
    e.set_width(&mut mm, 640);
    e.set_height(&mut mm, 480);
    assert_eq!(e.get_width(&mm), 640);
    assert_eq!(e.get_height(&mm), 480);
    assert_eq!(e.deref(&mm), Extent { width: 640, height: 480 });
    e.release(&mut mm);
    assert_eq!(mm.free_count(), 1);
}

#[test]
fn wrapper_clone_owns_an_independent_copy() {
    let mut mm: ExtentManager = NativeHeap::new(extent_zero());
    let p: usize = mm.allocate(Extent { width: 3, height: 4 });
    let a: ExtentBox = ExtentBox::from_native_owned(&mm, p);
    let mut b: ExtentBox = a.clone_in(&mut mm);
    b.set_width(&mut mm, 30);
    assert_eq!(a.get_width(&mm), 3);
    assert_eq!(b.get_width(&mm), 30);
    assert_eq!(b.get_height(&mm), 4);
    a.release(&mut mm);
    b.release(&mut mm);
    assert_eq!(mm.free_count(), 2);
}

#[test]
fn wrapper_borrow_is_not_freed() {
    let mut mm: ExtentManager = NativeHeap::new(extent_zero());
    let p: usize = mm.allocate(Extent { width: 1, height: 2 });
    let e: ExtentBox = ExtentBox::from_native_borrowed(&mm, p);
    assert_eq!(e.get_height(&mm), 2);
    e.release(&mut mm);
    assert_eq!(mm.free_count(), 0);
}

#[test]
fn wrapper_copy_reads_the_source_value() {
    let mut mm: ExtentManager = NativeHeap::new(extent_zero());
    let p: usize = mm.allocate(Extent { width: 8, height: 9 });
    let e: ExtentBox = ExtentBox::from_native_copy(&mut mm, p);
    assert_eq!(e.deref(&mm), Extent { width: 8, height: 9 });
    assert_ne!(e.to_native_borrowed(), p);
    e.release(&mut mm);
    assert_eq!(mm.free_count(), 1);
}

#[test]
fn pointer_field_accessor_borrows_the_nested_record() {
    let mut extents: ExtentManager = NativeHeap::new(extent_zero());
    let ep: usize = extents.allocate(Extent { width: 16, height: 32 });
    let mut sprites: SpriteManager = NativeHeap::new(sprite_zero());
    let mut s: SpriteBox = SpriteBox::uninitialized(&mut sprites);
    s.set_id(&mut sprites, 77);
    s.set_extent(&mut sprites, ep);
    assert_eq!(s.get_id(&sprites), 77);
    let nested: ExtentBox = s.get_extent(&sprites, &extents);
    assert_eq!(nested.get_width(&extents), 16);
    assert_eq!(nested.get_height(&extents), 32);
    nested.release(&mut extents);
    assert_eq!(extents.free_count(), 0);
    s.release(&mut sprites);
    assert_eq!(sprites.free_count(), 1);
}
