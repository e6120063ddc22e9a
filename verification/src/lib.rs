//! A growable contiguous array built on an explicit slot buffer, with an
//! owning iterator and a draining iterator that share one two-ended cursor.
//!
//! A buffer is a run of slots, each holding a value or vacant, together with
//! a capacity that grows by doubling. An address is a slot index, a raw read
//! moves the value out and leaves the slot vacant, and ownership passes by
//! handing the slots on.
//!
//! Every value sits in one slot of one owner at a time. Nothing here has a
//! destructor of its own: an array, an iterator or a cursor that goes out of
//! scope disposes of the values it still holds, each once, and its buffer
//! after them.

pub mod drain;
pub mod into_iter;
pub mod laws;
pub mod raw_val_iter;
pub mod raw_vec;
pub mod script;
pub mod vecx;

pub use crate::drain::Drain;
pub use crate::into_iter::IntoIterx;
pub use crate::raw_val_iter::RawValIter;
pub use crate::raw_vec::RawVec;
pub use crate::vecx::Vecx;
