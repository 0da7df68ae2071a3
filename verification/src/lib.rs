//! Bring-up core of a single-address-space kernel for a 64-bit ARM board:
//! the virtual memory layout and the translation tables built from it, the
//! interrupt controller with its handler table, the two-phase driver
//! bring-up, and the exclusive-access wrappers that all of them build on.
//!
//! Hardware state is held as plain values. The platform layer reads the
//! registers it needs into these values, calls into this crate and writes
//! back what changed.

pub mod bitfield;
pub mod board;
pub mod boards;
pub mod common;
pub mod console;
pub mod cpu;
pub mod driver_manager;
pub mod drivers;
pub mod exception;
pub mod memory;
pub mod print;
pub mod state;
pub mod synchronization;
pub mod time;
pub mod timer;
pub mod timer_manager;
