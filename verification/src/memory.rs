//! Memory management.

pub mod mmu;
