//! VMCALL exits: hypercall dispatch.
use vstd::prelude::*;
use crate::exits::emulation::ExitEmulation;
use crate::exits::ept::{spec_page_slot, spec_range_pages, spec_range_translates, translate_gva_range_to_gpas};
use crate::exits::helpers::{
    advance_rip, spec_result_after_advance, spec_vmcs_after_advance, ExitHandlerResult,
};
use crate::exits::reasons::ExitReason;
use crate::hypercalls::{HYPERCALL_REGISTER_FEEDBACK_BUFFER, HYPERCALL_SHUTDOWN, HYPERCALL_SNAPSHOT};
use crate::registers::gpr::GeneralPurposeRegisters;
use crate::traits::instruction_counter::InstructionCounter;
use crate::vm::root::RootVm;
use crate::vm_state::stats::AllExitStats;
use crate::vm_state::vm::{
    FeedbackBufferInfo, VmState, FEEDBACK_BUFFER_MAX_PAGES, MAX_FEEDBACK_BUFFERS,
};

verus! {

/// Largest feedback buffer in bytes (1 MB).
pub const MAX_FEEDBACK_BUFFER_SIZE: u64 = 256 * 4096;

/// Step RIP and report `success`, or the error of the step.
fn advance_then<I: InstructionCounter>(vm: &mut RootVm<I>, success: ExitHandlerResult) -> (r: ExitHandlerResult)
    ensures
        final(vm).state == (VmState { vmcs: final(vm).state.vmcs, ..old(vm).state }),
        final(vm).state.vmcs@ == spec_vmcs_after_advance(old(vm).state.vmcs@),
        r == spec_result_after_advance(old(vm).state.vmcs@, success),
        final(vm).memory@ == old(vm).memory@,
        final(vm).children_count == old(vm).children_count,
{
    match advance_rip(&mut vm.state.vmcs) {
        Ok(()) => success,
        Err(e) => ExitHandlerResult::Error(e),
    }
}

/// Whether a feedback-buffer registration with these arguments is refused
/// before any translation: index out of range, or size 0 or above 1 MB.
pub open spec fn spec_feedback_args_invalid(index: u64, size: u64) -> bool {
    index >= MAX_FEEDBACK_BUFFERS || size == 0 || size > MAX_FEEDBACK_BUFFER_SIZE
}

/// Outcome of the shutdown hypercall: the shutdown logged (see
/// `spec_logged_shutdown`), RIP stepped, exit to userspace.
pub open spec fn spec_shutdown_outcome<I: InstructionCounter>(
    s: VmState<I>,
    after: VmState<I>,
    r: ExitHandlerResult,
) -> bool {
    &&& s.spec_logged_shutdown(VmState { vmcs: s.vmcs, ..after })
    &&& after.vmcs@ == spec_vmcs_after_advance(s.vmcs@)
    &&& r == spec_result_after_advance(
        s.vmcs@,
        ExitHandlerResult::ExitToUserspace(ExitReason::VmcallShutdown),
    )
}

/// Outcome of the snapshot hypercall: the snapshot logged (see
/// `spec_logged_snapshot`), RIP stepped, exit to userspace.
pub open spec fn spec_snapshot_outcome<I: InstructionCounter>(
    s: VmState<I>,
    after: VmState<I>,
    r: ExitHandlerResult,
) -> bool {
    &&& s.spec_logged_snapshot(VmState { vmcs: s.vmcs, ..after })
    &&& after.vmcs@ == spec_vmcs_after_advance(s.vmcs@)
    &&& r == spec_result_after_advance(
        s.vmcs@,
        ExitHandlerResult::ExitToUserspace(ExitReason::VmcallSnapshot),
    )
}

/// Outcome of the feedback-buffer registration in `vm` (as `after`):
/// refused (RAX all ones, continue, nothing else changed) or recorded in
/// slot RDX (RAX 0, exit to userspace), its pages then copied ahead by `emu`
/// (guest memory and copy-on-write statistics as `emu` reports); RIP stepped
/// either way.
pub open spec fn spec_register_outcome<I: InstructionCounter, E: ExitEmulation>(
    emu: E,
    vm: RootVm<I>,
    after: RootVm<I>,
    r: ExitHandlerResult,
) -> bool {
    let s = vm.state;
    let gva = s.gprs.rbx;
    let size = s.gprs.rcx;
    let index = s.gprs.rdx;
    &&& after.children_count == vm.children_count
    &&& after.state.vmcs@ == spec_vmcs_after_advance(s.vmcs@)
    &&& if spec_feedback_args_invalid(index, size) || !spec_range_translates(vm, gva, size, 256) {
        &&& after.memory@ == vm.memory@
        &&& after.state == VmState {
            vmcs: after.state.vmcs,
            gprs: GeneralPurposeRegisters { rax: u64::MAX, ..s.gprs },
            ..s
        }
        &&& r == spec_result_after_advance(s.vmcs@, ExitHandlerResult::Continue)
    } else {
        &&& after.state == VmState {
            vmcs: after.state.vmcs,
            gprs: GeneralPurposeRegisters { rax: 0, ..s.gprs },
            feedback_buffers: after.state.feedback_buffers,
            exit_stats: AllExitStats { cow: after.state.exit_stats.cow, ..s.exit_stats },
            ..s
        }
        &&& forall|i: int|
            0 <= i < MAX_FEEDBACK_BUFFERS && i != index ==> after.state.feedback_buffers@[i]
                == s.feedback_buffers@[i]
        &&& after.state.feedback_buffers@[index as int] matches Some(info) && info.gva == gva
            && info.size == size && spec_range_pages(gva, size) == Some(info.num_pages as int)
            && (forall|i: int|
            0 <= i < info.num_pages ==> #[trigger] spec_page_slot(
                vm,
                (gva - gva % 4096 + i * 4096) as u64,
                info.gpas@[i],
            )) && emu.spec_pre_copies(
            index as usize,
            info,
            vm.memory@,
            s.exit_stats.cow,
            after.memory@,
            after.state.exit_stats.cow,
        )
        &&& r == spec_result_after_advance(
            s.vmcs@,
            ExitHandlerResult::ExitToUserspace(ExitReason::VmcallFeedbackBuffer),
        )
    }
}

fn vmcall_shutdown<I: InstructionCounter>(vm: &mut RootVm<I>) -> (r: ExitHandlerResult)
    ensures
        final(vm).memory@ == old(vm).memory@,
        final(vm).children_count == old(vm).children_count,
        spec_shutdown_outcome(old(vm).state, final(vm).state, r),
{
    vm.state.log_shutdown();
    advance_then(vm, ExitHandlerResult::ExitToUserspace(ExitReason::VmcallShutdown))
}

fn vmcall_snapshot<I: InstructionCounter>(vm: &mut RootVm<I>) -> (r: ExitHandlerResult)
    ensures
        final(vm).memory@ == old(vm).memory@,
        final(vm).children_count == old(vm).children_count,
        spec_snapshot_outcome(old(vm).state, final(vm).state, r),
{
    vm.state.log_snapshot();
    advance_then(vm, ExitHandlerResult::ExitToUserspace(ExitReason::VmcallSnapshot))
}

fn vmcall_register_feedback_buffer<I: InstructionCounter, E: ExitEmulation>(
    vm: &mut RootVm<I>,
    emu: &mut E,
) -> (r: ExitHandlerResult)
    ensures
        spec_register_outcome(*old(emu), *old(vm), *final(vm), r),
{
    let gva = vm.state.gprs.rbx;
    let size = vm.state.gprs.rcx;
    let index = vm.state.gprs.rdx;
    if index >= MAX_FEEDBACK_BUFFERS as u64 || size == 0 || size > MAX_FEEDBACK_BUFFER_SIZE {
        vm.state.gprs.rax = u64::MAX;
        return advance_then(vm, ExitHandlerResult::Continue);
    }
    let mut gpas = [0u64; 256];
    let num_pages = match translate_gva_range_to_gpas(vm, gva, size, &mut gpas) {
        Ok(n) => n,
        Err(()) => {
            vm.state.gprs.rax = u64::MAX;
            return advance_then(vm, ExitHandlerResult::Continue);
        },
    };
    let idx = index as usize;
    let info = FeedbackBufferInfo { gva, size, num_pages, gpas };
    vm.state.feedback_buffers[idx] = Some(info);
    emu.pre_cow_feedback_buffer(&mut vm.memory, &mut vm.state.exit_stats.cow, idx, info);
    vm.state.gprs.rax = 0;
    advance_then(vm, ExitHandlerResult::ExitToUserspace(ExitReason::VmcallFeedbackBuffer))
}

/// What `handle_vmcall` makes of `vm` (as `after`) and returns, copying
/// pages ahead through `emu`: the outcome of the hypercall RAX selects; guest
/// memory changes only where a feedback buffer was registered.
pub open spec fn spec_vmcall_outcome<I: InstructionCounter, E: ExitEmulation>(
    emu: E,
    vm: RootVm<I>,
    after: RootVm<I>,
    r: ExitHandlerResult,
) -> bool {
    let nr = vm.state.gprs.rax;
    &&& after.children_count == vm.children_count
    &&& if nr == HYPERCALL_SHUTDOWN {
        after.memory@ == vm.memory@ && spec_shutdown_outcome(vm.state, after.state, r)
    } else if nr == HYPERCALL_SNAPSHOT {
        after.memory@ == vm.memory@ && spec_snapshot_outcome(vm.state, after.state, r)
    } else if nr == HYPERCALL_REGISTER_FEEDBACK_BUFFER {
        spec_register_outcome(emu, vm, after, r)
    } else {
        &&& after.memory@ == vm.memory@
        &&& after.state == vm.state
        &&& r == ExitHandlerResult::ExitToUserspace(ExitReason::Vmcall)
    }
}

/// Handle a VMCALL: RAX selects the hypercall.
/// - shutdown: log the final state (`AtShutdown` mode), step RIP, exit to
///   userspace;
/// - snapshot: log the state if logging is on, step RIP, exit to userspace;
/// - register feedback buffer: check the index (RDX) and size (RCX),
///   translate the pages of the buffer at RBX and record them in slot RDX,
///   then have `emu` copy its copy-on-write pages ahead, so that userspace
///   maps pages that stay put; RAX becomes 0 and the exit goes to userspace,
///   or, on any failure, RAX becomes all ones and the guest continues; RIP
///   steps either way;
/// - anything else: exit to userspace without stepping RIP.
pub fn handle_vmcall<I: InstructionCounter, E: ExitEmulation>(vm: &mut RootVm<I>, emu: &mut E) -> (r:
    ExitHandlerResult)
    ensures
        spec_vmcall_outcome(*old(emu), *old(vm), *final(vm), r),
{
    let hypercall_nr = vm.state.gprs.rax;
    if hypercall_nr == HYPERCALL_SHUTDOWN {
        vmcall_shutdown(vm)
    } else if hypercall_nr == HYPERCALL_SNAPSHOT {
        vmcall_snapshot(vm)
    } else if hypercall_nr == HYPERCALL_REGISTER_FEEDBACK_BUFFER {
        vmcall_register_feedback_buffer(vm, emu)
    } else {
        ExitHandlerResult::ExitToUserspace(ExitReason::Vmcall)
    }
}

} // verus!
