//! Secondary processor-based VM-execution controls (Intel SDM Vol 3C, Section 25.6.2).
use vstd::prelude::*;

verus! {

/// Enable EPT.
pub const ENABLE_EPT: u32 = 1 << 1;

/// Enable RDTSCP.
pub const ENABLE_RDTSCP: u32 = 1 << 3;

/// Enable VPID.
pub const ENABLE_VPID: u32 = 1 << 5;

/// Unrestricted guest.
pub const UNRESTRICTED_GUEST: u32 = 1 << 7;

/// RDRAND exiting.
pub const RDRAND_EXITING: u32 = 1 << 11;

/// Enable INVPCID.
pub const ENABLE_INVPCID: u32 = 1 << 12;

/// RDSEED exiting.
pub const RDSEED_EXITING: u32 = 1 << 16;

} // verus!
