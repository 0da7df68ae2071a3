//! Boards that the kernel runs on.

pub mod rpi4;
