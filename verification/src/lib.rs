//! Compilation of 128-bit unsigned integer primitives of a statement-based
//! intermediate representation into assembly for a machine with a frame
//! pointer and an allocation pointer.
//!
//! Besides the instructions, every compiled primitive reports, for each of
//! its exits, where its outputs live and how far the allocation pointer has
//! moved, and lists the jumps whose targets are still symbolic.

pub mod ap_change;
pub mod builder;
pub mod compiler;
pub mod immediate;
pub mod instruction;
pub mod invocation;
pub mod reference;
pub mod relocation;
pub mod uint128;
