//! VM-entry controls (Intel SDM Vol 3C, Section 25.8.1).
use vstd::prelude::*;

verus! {

/// IA-32e mode guest.
pub const IA32E_MODE: u32 = 1 << 9;

/// Load IA32_PERF_GLOBAL_CTRL on VM entry.
pub const LOAD_IA32_PERF_GLOBAL_CTRL: u32 = 1 << 13;

/// Load IA32_EFER.
pub const LOAD_IA32_EFER: u32 = 1 << 15;

} // verus!
