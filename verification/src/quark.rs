//! Quarks: integer handles standing for interned strings.
//!
//! The native library maintains a two-way association between strings and
//! these handles.  Interning and printing go through native calls and are not
//! represented here; this module only carries the handle itself and the raw
//! conversions that cross the native boundary with it.

use vstd::prelude::*;

verus! {

/// An interned-string handle: a plain integer issued by the native string
/// table.  Zero is the reserved "no string" handle.
#[derive(Clone, Copy, Debug, PartialEq, Eq, Hash, Structural)]
pub struct Quark(u32);

impl Quark {
    /// The raw handle value.
    pub closed spec fn id(self) -> u32 {
        self.0
    }

    /// Wraps a raw handle received from a native call.
    pub fn from_glib(val: u32) -> (q: Quark)
        ensures
            q.id() == val,
    {
        Quark(val)
    }

    /// Hands the raw handle back for a native call.
    pub fn to_glib(&self) -> (val: u32)
        ensures
            val == self.id(),
    {
        self.0
    }
}

} // verus!
