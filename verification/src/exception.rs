//! Exceptions.

use vstd::prelude::*;

pub mod asynchronous;

verus! {

/// Privilege levels.
#[derive(Copy, Clone, Debug, PartialEq, Eq)]
pub enum PrivilegeLevel {
    User,
    Kernel,
    Hypervisor,
    TrustZone,
}

} // verus!
