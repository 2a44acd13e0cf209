//! Owning handles and status handling around a native graphics API.
//!
//! The native calls themselves are made by the caller; this library decides
//! what to pass to them and what their results mean.
use vstd::prelude::*;

pub mod error;
pub mod cstr;
pub mod shader;
pub mod vbo;
pub mod context;
pub mod live;

verus! {

/// Access to the native identifier behind a handle.
pub trait AsRaw<R: Copy> {
    /// The identifier this handle stands for.
    spec fn raw_spec(&self) -> R;

    fn as_raw(&self) -> (r: R)
        ensures
            r == self.raw_spec(),
    ;
}

} // verus!
