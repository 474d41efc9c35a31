//! Debug registers.
use vstd::prelude::*;

verus! {

/// The debug registers of a guest.
#[derive(Clone, Copy)]
pub struct DebugRegisters {
    pub dr0: u64,
    pub dr1: u64,
    pub dr2: u64,
    pub dr3: u64,
    pub dr6: u64,
    pub dr7: u64,
}

} // verus!
