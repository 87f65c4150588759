//! Single-threaded reference-counted handles whose value may be absent.
//!
//! An [`Rcn`] is an owning handle: it keeps a value alive together with the
//! other owning handles on the same control block, or it holds no value at
//! all. A [`Weakn`] is an observing handle: it keeps the control block alive
//! but not the value, and can be turned back into an owning handle while an
//! owner is left. The control blocks live in an [`Arena`], which every
//! operation takes beside the handle.
//!
//! Sharing a handle makes a second handle on the same block; cloning it makes
//! a new block with a copy of the value. The value is destroyed with the last
//! owning handle, and the block is released with the last handle of either
//! kind.
//!
//! The counters are plain integers and nothing here is meant to be used from
//! more than one thread. A value that holds an owning handle on its own block
//! is never destroyed: use an observing handle for such a reference.

pub mod arena;
mod block;
pub mod chain;
pub mod compare;
pub mod convert;
pub mod model;
pub mod observing;
pub mod owning;
pub mod text;
pub mod theorems;

pub use crate::arena::Arena;
pub use crate::observing::Weakn;
pub use crate::owning::Rcn;
