//! Exit handler results and errors, and the shared instruction-pointer step.
use vstd::prelude::*;
use crate::exits::reasons::ExitReason;
use crate::fields::{VmcsField32, VmcsFieldNatural};
use crate::vmcs::{MockVmcs, VmcsReadError, VmcsView, VmcsWriteError};

verus! {

/// Error of an exit handler.
#[derive(Debug, Clone, Copy)]
pub enum ExitError {
    /// Unrecoverable failure, with a description.
    Fatal(&'static str),
    /// A VMCS read failed.
    VmcsReadError(VmcsReadError),
    /// A VMCS write failed.
    VmcsWriteError(VmcsWriteError),
    /// The guest triple-faulted.
    TripleFault,
    /// VM entry failed because of invalid guest state.
    InvalidGuestState,
}

/// Outcome of handling a VM exit.
#[derive(Debug, Clone, Copy)]
pub enum ExitHandlerResult {
    /// The exit was handled; resume the guest.
    Continue,
    /// Return to userspace with the given reason.
    ExitToUserspace(ExitReason),
    /// A fatal error occurred.
    Error(ExitError),
}

/// The VMCS contents after stepping the guest RIP over the exiting
/// instruction (`GuestRip + VmExitInstructionLen`, wrapping), or the error of
/// the read that failed.
pub open spec fn spec_advance_rip(vmcs: VmcsView) -> Result<VmcsView, ExitError> {
    match vmcs.read32(VmcsField32::VmExitInstructionLen) {
        Err(e) => Err(ExitError::VmcsReadError(e)),
        Ok(len) => match vmcs.read_natural(VmcsFieldNatural::GuestRip) {
            Err(e) => Err(ExitError::VmcsReadError(e)),
            Ok(rip) => Ok(
                vmcs.set_natural(
                    VmcsFieldNatural::GuestRip,
                    ((rip + len) % 0x1_0000_0000_0000_0000) as u64,
                ),
            ),
        },
    }
}

/// Step the guest RIP over the instruction that caused the exit; on a
/// failed read nothing changes.
pub fn advance_rip(vmcs: &mut MockVmcs) -> (r: Result<(), ExitError>)
    ensures
        match spec_advance_rip(old(vmcs)@) {
            Ok(v) => r is Ok && final(vmcs)@ == v,
            Err(e) => r == Err::<(), ExitError>(e) && final(vmcs)@ == old(vmcs)@,
        },
{
    let len = match vmcs.read32(VmcsField32::VmExitInstructionLen) {
        Ok(l) => l,
        Err(e) => return Err(ExitError::VmcsReadError(e)),
    };
    let rip = match vmcs.read_natural(VmcsFieldNatural::GuestRip) {
        Ok(r) => r,
        Err(e) => return Err(ExitError::VmcsReadError(e)),
    };
    let new_rip = rip.wrapping_add(len as u64);
    match vmcs.write_natural(VmcsFieldNatural::GuestRip, new_rip) {
        Ok(()) => Ok(()),
        Err(e) => Err(ExitError::VmcsWriteError(e)),
    }
}

/// The result a handler returns after its work, depending on whether the
/// RIP step succeeded.
pub open spec fn spec_result_after_advance(vmcs: VmcsView, success: ExitHandlerResult) -> ExitHandlerResult {
    match spec_advance_rip(vmcs) {
        Ok(_) => success,
        Err(e) => ExitHandlerResult::Error(e),
    }
}

/// The VMCS contents after a handler's RIP step: advanced, or unchanged when
/// a read failed.
pub open spec fn spec_vmcs_after_advance(vmcs: VmcsView) -> VmcsView {
    match spec_advance_rip(vmcs) {
        Ok(v) => v,
        Err(_) => vmcs,
    }
}

} // verus!
