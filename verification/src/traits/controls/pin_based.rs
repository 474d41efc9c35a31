//! Pin-based VM-execution controls (Intel SDM Vol 3C, Section 25.6.1).
use vstd::prelude::*;

verus! {

/// External-interrupt exiting.
pub const EXT_INTR_EXITING: u32 = 1 << 0;

/// NMI exiting.
pub const NMI_EXITING: u32 = 1 << 3;

/// Activate the VMX-preemption timer.
pub const PREEMPTION_TIMER: u32 = 1 << 6;

} // verus!
