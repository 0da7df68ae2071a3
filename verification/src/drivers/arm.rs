//! ARM driver top level.

pub mod gicv2;

pub use gicv2::{GicV2, IrqNumber};
