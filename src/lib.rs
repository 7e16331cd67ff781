//! A reference-counted shared pointer with strong (`Rc`) and weak (`Weak`)
//! handles, built on an explicit control block that keeps both counters and
//! the payload slot.
//!
//! The control block is an ordinary owned value: every operation on a handle
//! takes the block it was issued by. Each handle carries a ghost ticket that
//! the block records, so the proofs can tie a live handle to a live count and
//! show that no handle ever reads a destroyed payload or a released block.
mod handle;
mod model;

pub use handle::{ControlBlock, Rc, Slot, Weak};
pub use model::BlockModel;
