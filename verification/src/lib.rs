//! Provenance-tagged owning handles for values that live in manually managed
//! native memory, in the style of a C object system's boxed value types.
//!
//! A native value is reached through a raw address and is duplicated and
//! released by a per-type pair of `copy`/`free` operations.  The [`boxed`]
//! module provides the [`boxed::Boxed`] handle, which records under which of
//! three ownership provenances an address was obtained and guarantees that the
//! two owning provenances run `free` exactly once, while a borrowed handle
//! never does.  The [`heap`] module provides an instrumented model of such an
//! allocator against which those guarantees are proved and can be observed by
//! tests.  The [`wrapper`] module writes out, for two sample records, the full
//! method set a named wrapper type around `Boxed` carries.  The [`quark`]
//! module holds the interned-string handle type.

pub mod boxed;
pub mod heap;
pub mod quark;
pub mod wrapper;
