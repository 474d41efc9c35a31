//! Hypercall numbers: the guest executes VMCALL with the number in RAX.
use vstd::prelude::*;

verus! {

/// Shut the VM down cleanly.
pub const HYPERCALL_SHUTDOWN: u64 = 0;

/// Take a snapshot: exit to userspace, logging the state if logging is on.
pub const HYPERCALL_SNAPSHOT: u64 = 1;

/// Register a feedback buffer: RBX its guest virtual address, RCX its size
/// in bytes, RDX its index (0-15). RAX returns 0 on success, all ones on
/// failure.
pub const HYPERCALL_REGISTER_FEEDBACK_BUFFER: u64 = 2;

/// Register a 4 KB PEBS scratch page (RBX its 4 KB-aligned guest virtual
/// address); RAX returns 0 on success, all ones on failure.
pub const HYPERCALL_REGISTER_PEBS_PAGE: u64 = 3;

} // verus!
