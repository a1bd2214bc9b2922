//! Optimization core of a speculative JIT for a dynamically typed language:
//! type-based alias analysis over a small instruction model, a write-once
//! registry of builtin-method annotations with guarded specialization rules,
//! and the dataflow utilities (a dense bit set and a bounded frequency
//! profile) that the analyses are built on.

pub mod annotations;
pub mod bitset;
pub mod distribution;
pub mod hir;
pub mod hir_type;
pub mod tbaa;
