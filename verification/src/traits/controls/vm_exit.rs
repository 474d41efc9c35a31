//! VM-exit controls (Intel SDM Vol 3C, Section 25.7.1).
use vstd::prelude::*;

verus! {

/// Host address-space size (64-bit host).
pub const HOST_ADDR_SPACE_SIZE: u32 = 1 << 9;

/// Load IA32_PERF_GLOBAL_CTRL on VM exit.
pub const LOAD_IA32_PERF_GLOBAL_CTRL: u32 = 1 << 12;

/// Save IA32_EFER.
pub const SAVE_IA32_EFER: u32 = 1 << 20;

/// Load IA32_EFER.
pub const LOAD_IA32_EFER: u32 = 1 << 21;

} // verus!
