//! The method set a named wrapper type around [`Boxed`] carries, written out
//! by hand for two sample native records.
//!
//! For each wrapped native value type the generator emits a newtype around
//! `Boxed`, the memory-manager capability for the record (here an
//! instantiation of [`NativeHeap`]), the full conversion protocol delegating
//! to the inner handle, a copying clone, and one accessor per declared field.
//! An accessor is either `direct` (reads or writes the field's plain value)
//! or `pointer` (the field holds the address of another wrapped record, and
//! the getter converts it into a borrowed handle).  [`ExtentBox`] shows two
//! direct fields with getters and setters; [`SpriteBox`] adds a
//! pointer-typed field whose getter borrows.

use vstd::prelude::*;
use crate::boxed::{Boxed, BoxedMemoryManager, Provenance};
use crate::heap::NativeHeap;

verus! {

/// A sample native record of two plain fields.
#[derive(Clone, Copy, Debug, PartialEq, Eq, Structural)]
pub struct Extent {
    pub width: u64,
    pub height: u64,
}

/// The memory-manager capability for `Extent` values.
pub type ExtentManager = NativeHeap<Extent>;

/// Named wrapper around a boxed `Extent`.
pub struct ExtentBox(Boxed<Extent, ExtentManager>);

impl ExtentBox {
    /// The wrapped address.
    pub closed spec fn ptr(&self) -> usize {
        self.0.ptr()
    }

    /// The provenance of the inner handle.
    pub closed spec fn provenance(&self) -> Provenance {
        self.0.provenance()
    }

    /// True in the two states whose release must run `free`.
    pub open spec fn owns(&self) -> bool {
        !(self.provenance() is ForeignBorrowed)
    }

    /// Well-formedness against the manager.
    pub open spec fn wf(&self, mm: &ExtentManager) -> bool {
        self.ptr() != 0 && mm.live(self.ptr())
    }

    /// Fresh zero-filled record, to be populated through the setters.
    pub fn uninitialized(mm: &mut ExtentManager) -> (b: Self)
        requires
            old(mm).inv(),
        ensures
            final(mm).inv(),
            b.wf(final(mm)),
            !old(mm).live(b.ptr()),
            b.provenance() is Native,
            final(mm).value_at(b.ptr()) == old(mm).zero(),
            final(mm).frees() == old(mm).frees(),
            forall|r: usize| #![trigger final(mm).live(r)] #![trigger old(mm).live(r)]
                r != b.ptr() ==> (final(mm).live(r) <==> old(mm).live(r)),
            forall|r: usize| #![trigger final(mm).value_at(r)]
                r != b.ptr() && old(mm).live(r) ==> final(mm).value_at(r) == old(mm).value_at(r),
    {
        ExtentBox(Boxed::uninitialized(mm))
    }

    /// Takes ownership of a transferred record.
    pub fn from_native_owned(mm: &ExtentManager, ptr: usize) -> (b: Self)
        requires
            ptr != 0,
            mm.live(ptr),
        ensures
            b.ptr() == ptr,
            b.provenance() is ForeignOwned,
    {
        ExtentBox(Boxed::from_native_owned(mm, ptr))
    }

    /// Borrows a record owned elsewhere.
    pub fn from_native_borrowed(mm: &ExtentManager, ptr: usize) -> (b: Self)
        requires
            ptr != 0,
            mm.live(ptr),
        ensures
            b.ptr() == ptr,
            b.provenance() is ForeignBorrowed,
    {
        ExtentBox(Boxed::from_native_borrowed(mm, ptr))
    }

    /// Copies a record owned elsewhere and owns the copy.
    pub fn from_native_copy(mm: &mut ExtentManager, ptr: usize) -> (b: Self)
        requires
            old(mm).inv(),
            ptr != 0,
            old(mm).live(ptr),
        ensures
            final(mm).inv(),
            b.wf(final(mm)),
            !old(mm).live(b.ptr()),
            b.provenance() is ForeignOwned,
            final(mm).value_at(b.ptr()) == old(mm).value_at(ptr),
            final(mm).frees() == old(mm).frees(),
            forall|r: usize| #![trigger final(mm).live(r)] #![trigger old(mm).live(r)]
                r != b.ptr() ==> (final(mm).live(r) <==> old(mm).live(r)),
            forall|r: usize| #![trigger final(mm).value_at(r)]
                r != b.ptr() && old(mm).live(r) ==> final(mm).value_at(r) == old(mm).value_at(r),
    {
        ExtentBox(Boxed::from_native_copy(mm, ptr))
    }

    /// The wrapped address, for a native call that does not take ownership.
    pub fn to_native_borrowed(&self) -> (p: usize)
        ensures
            p == self.ptr(),
    {
        self.0.to_native_borrowed()
    }

    /// The wrapped address, for a native call that mutates in place.
    pub fn to_native_mutable(&mut self) -> (p: usize)
        ensures
            p == old(self).ptr(),
            *final(self) == *old(self),
    {
        self.0.to_native_mutable()
    }

    /// Reads the whole record.
    pub fn deref(&self, mm: &ExtentManager) -> (v: Extent)
        requires
            mm.inv(),
            self.wf(mm),
        ensures
            v == mm.value_at(self.ptr()),
    {
        self.0.deref(mm)
    }

    /// Copying clone: always owns a fresh allocation.
    pub fn clone_in(&self, mm: &mut ExtentManager) -> (b: Self)
        requires
            old(mm).inv(),
            self.wf(old(mm)),
        ensures
            final(mm).inv(),
            b.wf(final(mm)),
            b.ptr() != self.ptr(),
            !old(mm).live(b.ptr()),
            b.owns(),
            final(mm).value_at(b.ptr()) == old(mm).value_at(self.ptr()),
            self.wf(final(mm)),
            final(mm).value_at(self.ptr()) == old(mm).value_at(self.ptr()),
            final(mm).frees() == old(mm).frees(),
            forall|r: usize| #![trigger final(mm).live(r)] #![trigger old(mm).live(r)]
                r != b.ptr() ==> (final(mm).live(r) <==> old(mm).live(r)),
            forall|r: usize| #![trigger final(mm).value_at(r)]
                r != b.ptr() && old(mm).live(r) ==> final(mm).value_at(r) == old(mm).value_at(r),
    {
        ExtentBox(self.0.clone_in(mm))
    }

    /// Destruction: frees if and only if the provenance is owning.
    pub fn release(self, mm: &mut ExtentManager)
        requires
            old(mm).inv(),
            self.wf(old(mm)),
        ensures
            final(mm).inv(),
            self.owns() ==> final(mm).frees() == old(mm).frees() + 1,
            self.owns() ==> !final(mm).live(self.ptr()),
            self.owns() ==> forall|r: usize| #![trigger final(mm).live(r)] #![trigger old(mm).live(r)]
                r != self.ptr() ==> (final(mm).live(r) <==> old(mm).live(r)),
            self.owns() ==> forall|r: usize| #![trigger final(mm).value_at(r)]
                r != self.ptr() && old(mm).live(r) ==> final(mm).value_at(r) == old(mm).value_at(r),
            !self.owns() ==> *final(mm) == *old(mm),
    {
        self.0.release(mm)
    }

    /// Direct getter for the `width` field.
    pub fn get_width(&self, mm: &ExtentManager) -> (w: u64)
        requires
            mm.inv(),
            self.wf(mm),
        ensures
            w == mm.value_at(self.ptr()).width,
    {
        self.0.deref(mm).width
    }

    /// Direct setter for the `width` field; the other field keeps its value.
    pub fn set_width(&mut self, mm: &mut ExtentManager, w: u64)
        requires
            old(mm).inv(),
            old(self).wf(old(mm)),
        ensures
            *final(self) == *old(self),
            final(mm).inv(),
            final(mm).value_at(old(self).ptr()).width == w,
            final(mm).value_at(old(self).ptr()).height == old(mm).value_at(old(self).ptr()).height,
            final(mm).frees() == old(mm).frees(),
            forall|r: usize| #![trigger final(mm).live(r)] #![trigger old(mm).live(r)]
                final(mm).live(r) <==> old(mm).live(r),
            forall|r: usize| #![trigger final(mm).value_at(r)]
                r != old(self).ptr() && old(mm).live(r) ==> final(mm).value_at(r) == old(mm).value_at(r),
    {
        let mut v = self.0.deref(mm);
        v.width = w;
        self.0.set_value(mm, v);
    }

    /// Direct getter for the `height` field.
    pub fn get_height(&self, mm: &ExtentManager) -> (h: u64)
        requires
            mm.inv(),
            self.wf(mm),
        ensures
            h == mm.value_at(self.ptr()).height,
    {
        self.0.deref(mm).height
    }

    /// Direct setter for the `height` field; the other field keeps its value.
    pub fn set_height(&mut self, mm: &mut ExtentManager, h: u64)
        requires
            old(mm).inv(),
            old(self).wf(old(mm)),
        ensures
            *final(self) == *old(self),
            final(mm).inv(),
            final(mm).value_at(old(self).ptr()).height == h,
            final(mm).value_at(old(self).ptr()).width == old(mm).value_at(old(self).ptr()).width,
            final(mm).frees() == old(mm).frees(),
            forall|r: usize| #![trigger final(mm).live(r)] #![trigger old(mm).live(r)]
                final(mm).live(r) <==> old(mm).live(r),
            forall|r: usize| #![trigger final(mm).value_at(r)]
                r != old(self).ptr() && old(mm).live(r) ==> final(mm).value_at(r) == old(mm).value_at(r),
    {
        let mut v = self.0.deref(mm);
        v.height = h;
        self.0.set_value(mm, v);
    }
}

/// A sample native record whose second field holds the address of an
/// `Extent` record.
#[derive(Clone, Copy, Debug, PartialEq, Eq, Structural)]
pub struct Sprite {
    pub id: u64,
    pub extent: usize,
}

/// The memory-manager capability for `Sprite` values.
pub type SpriteManager = NativeHeap<Sprite>;

/// Named wrapper around a boxed `Sprite`.
pub struct SpriteBox(Boxed<Sprite, SpriteManager>);

impl SpriteBox {
    /// The wrapped address.
    pub closed spec fn ptr(&self) -> usize {
        self.0.ptr()
    }

    /// The provenance of the inner handle.
    pub closed spec fn provenance(&self) -> Provenance {
        self.0.provenance()
    }

    /// True in the two states whose release must run `free`.
    pub open spec fn owns(&self) -> bool {
        !(self.provenance() is ForeignBorrowed)
    }

    /// Well-formedness against the manager.
    pub open spec fn wf(&self, mm: &SpriteManager) -> bool {
        self.ptr() != 0 && mm.live(self.ptr())
    }

    /// Fresh zero-filled record, to be populated through the setters.
    pub fn uninitialized(mm: &mut SpriteManager) -> (b: Self)
        requires
            old(mm).inv(),
        ensures
            final(mm).inv(),
            b.wf(final(mm)),
            !old(mm).live(b.ptr()),
            b.provenance() is Native,
            final(mm).value_at(b.ptr()) == old(mm).zero(),
            final(mm).frees() == old(mm).frees(),
            forall|r: usize| #![trigger final(mm).live(r)] #![trigger old(mm).live(r)]
                r != b.ptr() ==> (final(mm).live(r) <==> old(mm).live(r)),
            forall|r: usize| #![trigger final(mm).value_at(r)]
                r != b.ptr() && old(mm).live(r) ==> final(mm).value_at(r) == old(mm).value_at(r),
    {
        SpriteBox(Boxed::uninitialized(mm))
    }

    /// Takes ownership of a transferred record.
    pub fn from_native_owned(mm: &SpriteManager, ptr: usize) -> (b: Self)
        requires
            ptr != 0,
            mm.live(ptr),
        ensures
            b.ptr() == ptr,
            b.provenance() is ForeignOwned,
    {
        SpriteBox(Boxed::from_native_owned(mm, ptr))
    }

    /// Borrows a record owned elsewhere.
    pub fn from_native_borrowed(mm: &SpriteManager, ptr: usize) -> (b: Self)
        requires
            ptr != 0,
            mm.live(ptr),
        ensures
            b.ptr() == ptr,
            b.provenance() is ForeignBorrowed,
    {
        SpriteBox(Boxed::from_native_borrowed(mm, ptr))
    }

    /// Copies a record owned elsewhere and owns the copy.
    pub fn from_native_copy(mm: &mut SpriteManager, ptr: usize) -> (b: Self)
        requires
            old(mm).inv(),
            ptr != 0,
            old(mm).live(ptr),
        ensures
            final(mm).inv(),
            b.wf(final(mm)),
            !old(mm).live(b.ptr()),
            b.provenance() is ForeignOwned,
            final(mm).value_at(b.ptr()) == old(mm).value_at(ptr),
            final(mm).frees() == old(mm).frees(),
            forall|r: usize| #![trigger final(mm).live(r)] #![trigger old(mm).live(r)]
                r != b.ptr() ==> (final(mm).live(r) <==> old(mm).live(r)),
            forall|r: usize| #![trigger final(mm).value_at(r)]
                r != b.ptr() && old(mm).live(r) ==> final(mm).value_at(r) == old(mm).value_at(r),
    {
        SpriteBox(Boxed::from_native_copy(mm, ptr))
    }

    /// The wrapped address, for a native call that does not take ownership.
    pub fn to_native_borrowed(&self) -> (p: usize)
        ensures
            p == self.ptr(),
    {
        self.0.to_native_borrowed()
    }

    /// The wrapped address, for a native call that mutates in place.
    pub fn to_native_mutable(&mut self) -> (p: usize)
        ensures
            p == old(self).ptr(),
            *final(self) == *old(self),
    {
        self.0.to_native_mutable()
    }

    /// Reads the whole record.
    pub fn deref(&self, mm: &SpriteManager) -> (v: Sprite)
        requires
            mm.inv(),
            self.wf(mm),
        ensures
            v == mm.value_at(self.ptr()),
    {
        self.0.deref(mm)
    }

    /// Copying clone: always owns a fresh allocation.
    pub fn clone_in(&self, mm: &mut SpriteManager) -> (b: Self)
        requires
            old(mm).inv(),
            self.wf(old(mm)),
        ensures
            final(mm).inv(),
            b.wf(final(mm)),
            b.ptr() != self.ptr(),
            !old(mm).live(b.ptr()),
            b.owns(),
            final(mm).value_at(b.ptr()) == old(mm).value_at(self.ptr()),
            self.wf(final(mm)),
            final(mm).value_at(self.ptr()) == old(mm).value_at(self.ptr()),
            final(mm).frees() == old(mm).frees(),
            forall|r: usize| #![trigger final(mm).live(r)] #![trigger old(mm).live(r)]
                r != b.ptr() ==> (final(mm).live(r) <==> old(mm).live(r)),
            forall|r: usize| #![trigger final(mm).value_at(r)]
                r != b.ptr() && old(mm).live(r) ==> final(mm).value_at(r) == old(mm).value_at(r),
    {
        SpriteBox(self.0.clone_in(mm))
    }

    /// Destruction: frees if and only if the provenance is owning.
    pub fn release(self, mm: &mut SpriteManager)
        requires
            old(mm).inv(),
            self.wf(old(mm)),
        ensures
            final(mm).inv(),
            self.owns() ==> final(mm).frees() == old(mm).frees() + 1,
            self.owns() ==> !final(mm).live(self.ptr()),
            self.owns() ==> forall|r: usize| #![trigger final(mm).live(r)] #![trigger old(mm).live(r)]
                r != self.ptr() ==> (final(mm).live(r) <==> old(mm).live(r)),
            self.owns() ==> forall|r: usize| #![trigger final(mm).value_at(r)]
                r != self.ptr() && old(mm).live(r) ==> final(mm).value_at(r) == old(mm).value_at(r),
            !self.owns() ==> *final(mm) == *old(mm),
    {
        self.0.release(mm)
    }

    /// Direct getter for the `id` field.
    pub fn get_id(&self, mm: &SpriteManager) -> (id: u64)
        requires
            mm.inv(),
            self.wf(mm),
        ensures
            id == mm.value_at(self.ptr()).id,
    {
        self.0.deref(mm).id
    }

    /// Direct setter for the `id` field; the pointer field keeps its value.
    pub fn set_id(&mut self, mm: &mut SpriteManager, id: u64)
        requires
            old(mm).inv(),
            old(self).wf(old(mm)),
        ensures
            *final(self) == *old(self),
            final(mm).inv(),
            final(mm).value_at(old(self).ptr()).id == id,
            final(mm).value_at(old(self).ptr()).extent == old(mm).value_at(old(self).ptr()).extent,
            final(mm).frees() == old(mm).frees(),
            forall|r: usize| #![trigger final(mm).live(r)] #![trigger old(mm).live(r)]
                final(mm).live(r) <==> old(mm).live(r),
            forall|r: usize| #![trigger final(mm).value_at(r)]
                r != old(self).ptr() && old(mm).live(r) ==> final(mm).value_at(r) == old(mm).value_at(r),
    {
        let mut v = self.0.deref(mm);
        v.id = id;
        self.0.set_value(mm, v);
    }

    /// Direct setter for the `extent` pointer field.
    pub fn set_extent(&mut self, mm: &mut SpriteManager, extent: usize)
        requires
            old(mm).inv(),
            old(self).wf(old(mm)),
        ensures
            *final(self) == *old(self),
            final(mm).inv(),
            final(mm).value_at(old(self).ptr()).extent == extent,
            final(mm).value_at(old(self).ptr()).id == old(mm).value_at(old(self).ptr()).id,
            final(mm).frees() == old(mm).frees(),
            forall|r: usize| #![trigger final(mm).live(r)] #![trigger old(mm).live(r)]
                final(mm).live(r) <==> old(mm).live(r),
            forall|r: usize| #![trigger final(mm).value_at(r)]
                r != old(self).ptr() && old(mm).live(r) ==> final(mm).value_at(r) == old(mm).value_at(r),
    {
        let mut v = self.0.deref(mm);
        v.extent = extent;
        self.0.set_value(mm, v);
    }

    /// Pointer-typed getter for the `extent` field: the field's address is
    /// converted into a borrowed handle in the extent allocator, which the
    /// native side keeps owning.
    pub fn get_extent(&self, mm: &SpriteManager, extents: &ExtentManager) -> (e: ExtentBox)
        requires
            mm.inv(),
            self.wf(mm),
            mm.value_at(self.ptr()).extent != 0,
            extents.live(mm.value_at(self.ptr()).extent),
        ensures
            e.ptr() == mm.value_at(self.ptr()).extent,
            e.provenance() is ForeignBorrowed,
    {
        let v = self.0.deref(mm);
        ExtentBox::from_native_borrowed(extents, v.extent)
    }
}

} // verus!
