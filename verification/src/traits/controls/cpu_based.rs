//! Primary processor-based VM-execution controls (Intel SDM Vol 3C, Section 25.6.2).
use vstd::prelude::*;

verus! {

/// Interrupt-window exiting.
pub const INTR_WINDOW_EXITING: u32 = 1 << 2;

/// HLT exiting.
pub const HLT_EXITING: u32 = 1 << 7;

/// MWAIT exiting.
pub const MWAIT_EXITING: u32 = 1 << 10;

/// RDPMC exiting.
pub const RDPMC_EXITING: u32 = 1 << 11;

/// RDTSC exiting (also RDTSCP).
pub const RDTSC_EXITING: u32 = 1 << 12;

/// CR3-load exiting.
pub const CR3_LOAD_EXITING: u32 = 1 << 15;

/// CR3-store exiting.
pub const CR3_STORE_EXITING: u32 = 1 << 16;

/// CR8-load exiting.
pub const CR8_LOAD_EXITING: u32 = 1 << 19;

/// CR8-store exiting.
pub const CR8_STORE_EXITING: u32 = 1 << 20;

/// Unconditional I/O exiting.
pub const UNCOND_IO_EXITING: u32 = 1 << 24;

/// Monitor trap flag: a VM exit after each guest instruction.
pub const MONITOR_TRAP_FLAG: u32 = 1 << 27;

/// Use MSR bitmaps.
pub const USE_MSR_BITMAPS: u32 = 1 << 28;

/// MONITOR exiting.
pub const MONITOR_EXITING: u32 = 1 << 29;

/// Activate secondary controls.
pub const ACTIVATE_SECONDARY_CONTROLS: u32 = 1 << 31;

} // verus!
