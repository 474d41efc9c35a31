//! Verified core of the bedrock VMX hypervisor.
use vstd::prelude::*;

pub mod compat;
pub mod cow;
pub mod decoder;
pub mod devices;
pub mod exits;
pub mod fields;
pub mod handler;
pub mod host;
pub mod hypercalls;
pub mod logging;
pub mod monitor;
pub mod registers;
pub mod timing;
pub mod traits;
pub mod vm;
pub mod vm_state;
pub mod vmcs;
pub mod vmcs_setup;

verus! {

} // verus!
