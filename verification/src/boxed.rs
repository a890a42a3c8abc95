//! The provenance-tagged owning handle for one native value.
//!
//! A native value sits at a nonzero address inside a manually managed
//! allocator and is duplicated and released by a per-type `copy`/`free`
//! capability, the [`BoxedMemoryManager`].  A [`Boxed`] handle records under
//! which ownership provenance its address was obtained:
//!
//! - `Native`: the handle itself allocated the value; release must free it.
//! - `ForeignOwned`: a native call transferred ownership in; release must
//!   free it.
//! - `ForeignBorrowed`: the address is owned elsewhere; release must never
//!   free it.
//!
//! The contracts below pin the central guarantees down: releasing an owning
//! handle runs `free` exactly once and touches no other allocation, releasing
//! a borrowed handle leaves the allocator untouched, a clone always owns a
//! fresh independent copy, and a null address never produces a handle.

use vstd::prelude::*;
use core::marker::PhantomData;

verus! {

/// Which of the three ownership provenances a handle is in.  The provenance
/// is fixed at construction and decides what release does.
#[derive(Clone, Copy, Debug, PartialEq, Eq, Structural)]
pub enum Provenance {
    /// The handle allocated the value itself.
    Native,
    /// Ownership of the address was transferred into the handle.
    ForeignOwned,
    /// The address is owned by someone else; the handle only reads it.
    ForeignBorrowed,
}

/// The per-type memory-management capability together with the allocator it
/// operates on.  `live` tells which addresses currently hold an allocated
/// value (address zero never does), `value_at` gives the contents, `frees`
/// counts how often `free` has run, and `zero` is the contents fresh
/// zero-filled allocations start with.  Every mutating operation is framed:
/// it speaks about each untouched address.
pub trait BoxedMemoryManager<T: Copy>: Sized {
    /// Internal consistency of the manager's bookkeeping.
    spec fn inv(&self) -> bool;

    /// Whether address `p` holds a live (allocated, not yet freed) value.
    spec fn live(&self, p: usize) -> bool;

    /// The contents stored at address `p`.
    spec fn value_at(&self, p: usize) -> T;

    /// How many times `free` has run so far.
    spec fn frees(&self) -> nat;

    /// The contents a fresh zero-filled allocation starts with.
    spec fn zero(&self) -> T;

    /// The null address never holds a live value.
    proof fn null_never_live(&self)
        ensures
            !self.live(0),
    ;

    /// Allocates a fresh zero-filled value and returns its nonzero address.
    fn alloc_zeroed(&mut self) -> (p: usize)
        requires
            old(self).inv(),
        ensures
            final(self).inv(),
            p != 0,
            !old(self).live(p),
            final(self).live(p),
            final(self).value_at(p) == old(self).zero(),
            final(self).frees() == old(self).frees(),
            final(self).zero() == old(self).zero(),
            forall|r: usize| #![trigger final(self).live(r)] #![trigger old(self).live(r)]
                r != p ==> (final(self).live(r) <==> old(self).live(r)),
            forall|r: usize| #![trigger final(self).value_at(r)]
                r != p && old(self).live(r) ==> final(self).value_at(r) == old(self).value_at(r),
    ;

    /// Duplicates the live value at `p` into an independent fresh allocation
    /// and returns the new nonzero address.  The source stays live and
    /// unchanged.
    fn copy(&mut self, p: usize) -> (q: usize)
        requires
            old(self).inv(),
            old(self).live(p),
        ensures
            final(self).inv(),
            q != 0,
            !old(self).live(q),
            final(self).live(q),
            final(self).value_at(q) == old(self).value_at(p),
            final(self).frees() == old(self).frees(),
            final(self).zero() == old(self).zero(),
            forall|r: usize| #![trigger final(self).live(r)] #![trigger old(self).live(r)]
                r != q ==> (final(self).live(r) <==> old(self).live(r)),
            forall|r: usize| #![trigger final(self).value_at(r)]
                r != q && old(self).live(r) ==> final(self).value_at(r) == old(self).value_at(r),
    ;

    /// Releases the live value at `p`.  Exactly this allocation dies and the
    /// free counter moves up by one.
    fn free(&mut self, p: usize)
        requires
            old(self).inv(),
            old(self).live(p),
        ensures
            final(self).inv(),
            !final(self).live(p),
            final(self).frees() == old(self).frees() + 1,
            final(self).zero() == old(self).zero(),
            forall|r: usize| #![trigger final(self).live(r)] #![trigger old(self).live(r)]
                r != p ==> (final(self).live(r) <==> old(self).live(r)),
            forall|r: usize| #![trigger final(self).value_at(r)]
                r != p && old(self).live(r) ==> final(self).value_at(r) == old(self).value_at(r),
    ;

    /// Reads the live value at `p`.
    fn read(&self, p: usize) -> (v: T)
        requires
            self.inv(),
            self.live(p),
        ensures
            v == self.value_at(p),
    ;

    /// Overwrites the live value at `p` in place.
    fn write(&mut self, p: usize, v: T)
        requires
            old(self).inv(),
            old(self).live(p),
        ensures
            final(self).inv(),
            final(self).value_at(p) == v,
            final(self).frees() == old(self).frees(),
            final(self).zero() == old(self).zero(),
            forall|r: usize| #![trigger final(self).live(r)] #![trigger old(self).live(r)]
                final(self).live(r) <==> old(self).live(r),
            forall|r: usize| #![trigger final(self).value_at(r)]
                r != p && old(self).live(r) ==> final(self).value_at(r) == old(self).value_at(r),
    ;

    /// How many times `free` has run, as an observable number.
    fn free_count(&self) -> (n: usize)
        ensures
            n as nat == self.frees(),
    ;
}

/// A provenance-tagged handle for one native value managed by `MM`.
///
/// The handle holds the value's address and the provenance it was obtained
/// under.  It is deliberately not `Clone`: duplicating it must go through
/// [`Boxed::clone_in`], which runs the manager's `copy`, and destruction must
/// go through [`Boxed::release`], which consumes the handle.  Since the
/// handle can only be released once and release is the only operation that
/// frees, an owning handle frees its allocation exactly once over its
/// lifetime, however often it was dereferenced in between.
pub struct Boxed<T: Copy, MM: BoxedMemoryManager<T>> {
    addr: usize,
    prov: Provenance,
    _value: PhantomData<T>,
    _manager: PhantomData<MM>,
}

impl<T: Copy, MM: BoxedMemoryManager<T>> Boxed<T, MM> {
    /// The address this handle wraps; never zero.
    pub closed spec fn ptr(&self) -> usize {
        self.addr
    }

    /// The ownership provenance the handle was constructed under.
    pub closed spec fn provenance(&self) -> Provenance {
        self.prov
    }

    /// True in the two states whose release must run `free`.
    pub open spec fn owns(&self) -> bool {
        !(self.provenance() is ForeignBorrowed)
    }

    /// The handle is well formed against `mm`: its address is nonzero and
    /// still live there.
    pub open spec fn wf(&self, mm: &MM) -> bool {
        self.ptr() != 0 && mm.live(self.ptr())
    }

    /// Allocates a fresh zero-filled native value and wraps it as `Native`.
    ///
    /// The caller is expected to populate every field before handing the
    /// value to native code that reads it; nothing tracks per-field
    /// initialization, so a value left at its zero filling is the caller's
    /// responsibility.  This entry point is a known sharp edge kept for the
    /// native record types that are created empty and filled in afterwards.
    pub fn uninitialized(mm: &mut MM) -> (b: Self)
        requires
            old(mm).inv(),
        ensures
            final(mm).inv(),
            b.ptr() != 0,
            !old(mm).live(b.ptr()),
            final(mm).live(b.ptr()),
            b.provenance() is Native,
            final(mm).value_at(b.ptr()) == old(mm).zero(),
            final(mm).frees() == old(mm).frees(),
            final(mm).zero() == old(mm).zero(),
            forall|r: usize| #![trigger final(mm).live(r)] #![trigger old(mm).live(r)]
                r != b.ptr() ==> (final(mm).live(r) <==> old(mm).live(r)),
            forall|r: usize| #![trigger final(mm).value_at(r)]
                r != b.ptr() && old(mm).live(r) ==> final(mm).value_at(r) == old(mm).value_at(r),
    {
        let p = mm.alloc_zeroed();
        Boxed { addr: p, prov: Provenance::Native, _value: PhantomData, _manager: PhantomData }
    }

    /// Wraps a nonzero address whose ownership a native call transferred to
    /// the caller.  Release will free it.
    ///
    /// A null address is a native-contract violation; it is excluded here and
    /// rejected at run time by [`Boxed::try_from_native_owned`].
    pub fn from_native_owned(mm: &MM, ptr: usize) -> (b: Self)
        requires
            ptr != 0,
            mm.live(ptr),
        ensures
            b.ptr() == ptr,
            b.provenance() is ForeignOwned,
    {
        Boxed { addr: ptr, prov: Provenance::ForeignOwned, _value: PhantomData, _manager: PhantomData }
    }

    /// Wraps a nonzero address owned elsewhere, without taking ownership.
    /// Release will leave it alone.
    pub fn from_native_borrowed(mm: &MM, ptr: usize) -> (b: Self)
        requires
            ptr != 0,
            mm.live(ptr),
        ensures
            b.ptr() == ptr,
            b.provenance() is ForeignBorrowed,
    {
        Boxed { addr: ptr, prov: Provenance::ForeignBorrowed, _value: PhantomData, _manager: PhantomData }
    }

    /// Runs the manager's `copy` on the value at the given nonzero address
    /// and owns the copy; the source stays owned elsewhere and unchanged.
    pub fn from_native_copy(mm: &mut MM, ptr: usize) -> (b: Self)
        requires
            old(mm).inv(),
            ptr != 0,
            old(mm).live(ptr),
        ensures
            final(mm).inv(),
            b.ptr() != 0,
            !old(mm).live(b.ptr()),
            final(mm).live(b.ptr()),
            b.provenance() is ForeignOwned,
            final(mm).value_at(b.ptr()) == old(mm).value_at(ptr),
            final(mm).frees() == old(mm).frees(),
            final(mm).zero() == old(mm).zero(),
            forall|r: usize| #![trigger final(mm).live(r)] #![trigger old(mm).live(r)]
                r != b.ptr() ==> (final(mm).live(r) <==> old(mm).live(r)),
            forall|r: usize| #![trigger final(mm).value_at(r)]
                r != b.ptr() && old(mm).live(r) ==> final(mm).value_at(r) == old(mm).value_at(r),
    {
        let q = mm.copy(ptr);
        Boxed { addr: q, prov: Provenance::ForeignOwned, _value: PhantomData, _manager: PhantomData }
    }

    /// Checked form of [`Boxed::from_native_owned`]: a null address is
    /// rejected and constructs no handle; any nonzero address is accepted.
    pub fn try_from_native_owned(mm: &MM, ptr: usize) -> (r: Option<Self>)
        ensures
            r is Some <==> ptr != 0,
            ptr != 0 ==> (r matches Some(b) && b.ptr() == ptr && b.provenance() is ForeignOwned),
    {
        if ptr == 0 {
            None
        } else {
            Some(Boxed { addr: ptr, prov: Provenance::ForeignOwned, _value: PhantomData, _manager: PhantomData })
        }
    }

    /// Checked form of [`Boxed::from_native_borrowed`]: a null address is
    /// rejected and constructs no handle.
    pub fn try_from_native_borrowed(mm: &MM, ptr: usize) -> (r: Option<Self>)
        ensures
            r is Some <==> ptr != 0,
            ptr != 0 ==> (r matches Some(b) && b.ptr() == ptr && b.provenance() is ForeignBorrowed),
    {
        if ptr == 0 {
            None
        } else {
            Some(Boxed { addr: ptr, prov: Provenance::ForeignBorrowed, _value: PhantomData, _manager: PhantomData })
        }
    }

    /// Checked form of [`Boxed::from_native_copy`]: a null address is
    /// rejected, constructs no handle and leaves the allocator untouched.
    pub fn try_from_native_copy(mm: &mut MM, ptr: usize) -> (r: Option<Self>)
        requires
            old(mm).inv(),
            ptr != 0 ==> old(mm).live(ptr),
        ensures
            final(mm).inv(),
            r is Some <==> ptr != 0,
            ptr == 0 ==> *final(mm) == *old(mm),
            ptr != 0 ==> (r matches Some(b)
                && b.ptr() != 0
                && !old(mm).live(b.ptr())
                && final(mm).live(b.ptr())
                && b.provenance() is ForeignOwned
                && final(mm).value_at(b.ptr()) == old(mm).value_at(ptr)
                && final(mm).frees() == old(mm).frees()
                && final(mm).zero() == old(mm).zero()
                && (forall|s: usize| #![trigger final(mm).live(s)] #![trigger old(mm).live(s)]
                    s != b.ptr() ==> (final(mm).live(s) <==> old(mm).live(s)))
                && (forall|s: usize| #![trigger final(mm).value_at(s)]
                    s != b.ptr() && old(mm).live(s) ==> final(mm).value_at(s) == old(mm).value_at(s))),
    {
        if ptr == 0 {
            None
        } else {
            Some(Self::from_native_copy(mm, ptr))
        }
    }

    /// Hands the wrapped address out for a native call that does not take
    /// ownership of its argument; the borrow of `self` keeps the handle (and
    /// with it the address) alive for the duration of the call.
    pub fn to_native_borrowed(&self) -> (p: usize)
        ensures
            p == self.ptr(),
    {
        self.addr
    }

    /// Hands the wrapped address out for a native call that mutates the
    /// value in place; the exclusive borrow of `self` rules out any other
    /// access for the duration of the call.
    pub fn to_native_mutable(&mut self) -> (p: usize)
        ensures
            p == old(self).ptr(),
            *final(self) == *old(self),
    {
        self.addr
    }

    /// Reads the wrapped value.  Reading never changes the allocator, so no
    /// number of reads brings an owning handle closer to a second free.
    pub fn deref(&self, mm: &MM) -> (v: T)
        requires
            mm.inv(),
            self.wf(mm),
        ensures
            v == mm.value_at(self.ptr()),
    {
        mm.read(self.addr)
    }

    /// Overwrites the wrapped value in place, the write half of mutable
    /// access.  Only this handle's allocation changes.
    pub fn set_value(&self, mm: &mut MM, v: T)
        requires
            old(mm).inv(),
            self.wf(old(mm)),
        ensures
            final(mm).inv(),
            final(mm).value_at(self.ptr()) == v,
            final(mm).frees() == old(mm).frees(),
            final(mm).zero() == old(mm).zero(),
            forall|r: usize| #![trigger final(mm).live(r)] #![trigger old(mm).live(r)]
                final(mm).live(r) <==> old(mm).live(r),
            forall|r: usize| #![trigger final(mm).value_at(r)]
                r != self.ptr() && old(mm).live(r) ==> final(mm).value_at(r) == old(mm).value_at(r),
    {
        mm.write(self.addr, v);
    }

    /// Duplicates the handle by running the manager's `copy`: the clone owns
    /// a fresh allocation with the same contents, whatever provenance the
    /// source is in.  The source stays live and untouched, so either handle
    /// can be released without affecting the other, and each owning handle
    /// frees its own allocation exactly once.
    pub fn clone_in(&self, mm: &mut MM) -> (b: Self)
        requires
            old(mm).inv(),
            self.wf(old(mm)),
        ensures
            final(mm).inv(),
            b.ptr() != 0,
            b.ptr() != self.ptr(),
            !old(mm).live(b.ptr()),
            final(mm).live(b.ptr()),
            b.provenance() is ForeignOwned,
            b.owns(),
            final(mm).value_at(b.ptr()) == old(mm).value_at(self.ptr()),
            self.wf(final(mm)),
            final(mm).value_at(self.ptr()) == old(mm).value_at(self.ptr()),
            final(mm).frees() == old(mm).frees(),
            final(mm).zero() == old(mm).zero(),
            forall|r: usize| #![trigger final(mm).live(r)] #![trigger old(mm).live(r)]
                r != b.ptr() ==> (final(mm).live(r) <==> old(mm).live(r)),
            forall|r: usize| #![trigger final(mm).value_at(r)]
                r != b.ptr() && old(mm).live(r) ==> final(mm).value_at(r) == old(mm).value_at(r),
    {
        Self::from_native_copy(mm, self.addr)
    }

    /// Destruction: consumes the handle and runs `free` if and only if the
    /// provenance is owning.  An owning release frees exactly this handle's
    /// allocation and moves the free counter up by exactly one; since the
    /// handle is consumed, no second free can ever follow.  A borrowed
    /// release leaves the allocator exactly as it was.
    pub fn release(self, mm: &mut MM)
        requires
            old(mm).inv(),
            self.wf(old(mm)),
        ensures
            final(mm).inv(),
            final(mm).zero() == old(mm).zero(),
            self.owns() ==> final(mm).frees() == old(mm).frees() + 1,
            self.owns() ==> !final(mm).live(self.ptr()),
            self.owns() ==> forall|r: usize| #![trigger final(mm).live(r)] #![trigger old(mm).live(r)]
                r != self.ptr() ==> (final(mm).live(r) <==> old(mm).live(r)),
            self.owns() ==> forall|r: usize| #![trigger final(mm).value_at(r)]
                r != self.ptr() && old(mm).live(r) ==> final(mm).value_at(r) == old(mm).value_at(r),
            !self.owns() ==> *final(mm) == *old(mm),
    {
        match self.prov {
            Provenance::Native | Provenance::ForeignOwned => mm.free(self.addr),
            Provenance::ForeignBorrowed => (),
        }
    }

    /// Observable form of the provenance tag.
    pub fn is_owning(&self) -> (r: bool)
        ensures
            r == self.owns(),
    {
        match self.prov {
            Provenance::ForeignBorrowed => false,
            _ => true,
        }
    }
}

/// Clone-independence law: cloning a handle and releasing the clone frees
/// exactly the clone's own fresh allocation, once; the source handle stays
/// well formed with its value untouched, whatever provenance it is in.
pub fn clone_then_release_leaves_source_intact<T: Copy, MM: BoxedMemoryManager<T>>(
    a: &Boxed<T, MM>,
    mm: &mut MM,
)
    requires
        old(mm).inv(),
        a.wf(old(mm)),
    ensures
        final(mm).inv(),
        a.wf(final(mm)),
        final(mm).value_at(a.ptr()) == old(mm).value_at(a.ptr()),
        final(mm).frees() == old(mm).frees() + 1,
{
    let b = a.clone_in(mm);
    b.release(mm);
}

/// Round-trip law: for any live native value, running the manager's `copy`
/// on it, taking ownership of the copy and dereferencing yields exactly the
/// value the source held at the time of the copy.  The handle for the copy is
/// returned so the caller stays responsible for releasing it.
pub fn copy_then_deref_round_trip<T: Copy, MM: BoxedMemoryManager<T>>(mm: &mut MM, ptr: usize) -> (r: (Boxed<T, MM>, T))
    requires
        old(mm).inv(),
        ptr != 0,
        old(mm).live(ptr),
    ensures
        r.1 == old(mm).value_at(ptr),
        final(mm).inv(),
        r.0.wf(final(mm)),
        r.0.owns(),
        final(mm).frees() == old(mm).frees(),
{
    let b = Boxed::<T, MM>::from_native_copy(mm, ptr);
    let v = b.deref(mm);
    (b, v)
}

} // verus!
