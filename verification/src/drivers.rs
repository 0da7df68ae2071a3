//! Device drivers.

pub mod arm;
pub mod common;
pub mod gpio;
pub mod serial;
