//! Time-related exits (RDTSC, RDTSCP, RDPMC, HLT/MWAIT), emulated from the
//! instruction-count-derived TSC so that guests see deterministic time.
use vstd::prelude::*;
use crate::exits::helpers::{
    advance_rip, spec_result_after_advance, spec_vmcs_after_advance, ExitHandlerResult,
};
use crate::registers::gpr::GeneralPurposeRegisters;
use crate::traits::instruction_counter::InstructionCounter;
use crate::vm_state::vm::VmState;

verus! {

/// Step RIP and report the outcome.
fn finish_with_advance<I: InstructionCounter>(state: &mut VmState<I>) -> (r: ExitHandlerResult)
    ensures
        *final(state) == (VmState { vmcs: final(state).vmcs, ..*old(state) }),
        final(state).vmcs@ == spec_vmcs_after_advance(old(state).vmcs@),
        r == spec_result_after_advance(old(state).vmcs@, ExitHandlerResult::Continue),
{
    match advance_rip(&mut state.vmcs) {
        Ok(()) => ExitHandlerResult::Continue,
        Err(e) => ExitHandlerResult::Error(e),
    }
}

/// What `handle_rdtsc` makes of `s` (as `after`) and returns.
pub open spec fn spec_rdtsc_outcome<I: InstructionCounter>(s: VmState<I>, after: VmState<I>, r: ExitHandlerResult) -> bool {
    &&& after.gprs == (GeneralPurposeRegisters {
            rax: s.emulated_tsc & 0xFFFF_FFFF,
            rdx: s.emulated_tsc >> 32u64,
            ..s.gprs
    })
    &&& after.vmcs@ == spec_vmcs_after_advance(s.vmcs@)
    &&& r == spec_result_after_advance(s.vmcs@, ExitHandlerResult::Continue)
    &&& after == (VmState { vmcs: after.vmcs, gprs: after.gprs, ..s })
}

/// RDTSC: the emulated TSC in EDX:EAX, then RIP steps over the instruction.
pub fn handle_rdtsc<I: InstructionCounter>(state: &mut VmState<I>) -> (r: ExitHandlerResult)
    ensures
        spec_rdtsc_outcome(*old(state), *final(state), r),
{
    let tsc = state.emulated_tsc;
    state.gprs.rax = tsc & 0xFFFF_FFFF;
    state.gprs.rdx = tsc >> 32;
    finish_with_advance(state)
}

/// What `handle_rdtscp` makes of `s` (as `after`) and returns.
pub open spec fn spec_rdtscp_outcome<I: InstructionCounter>(s: VmState<I>, after: VmState<I>, r: ExitHandlerResult) -> bool {
    &&& after.gprs == (GeneralPurposeRegisters {
            rax: s.emulated_tsc & 0xFFFF_FFFF,
            rdx: s.emulated_tsc >> 32u64,
            rcx: s.msr_state.tsc_aux & 0xFFFF_FFFF,
            ..s.gprs
    })
    &&& after.vmcs@ == spec_vmcs_after_advance(s.vmcs@)
    &&& r == spec_result_after_advance(s.vmcs@, ExitHandlerResult::Continue)
    &&& after == (VmState { vmcs: after.vmcs, gprs: after.gprs, ..s })
}

/// RDTSCP: the emulated TSC in EDX:EAX and the low 32 bits of TSC_AUX in
/// ECX, then RIP steps over the instruction.
pub fn handle_rdtscp<I: InstructionCounter>(state: &mut VmState<I>) -> (r: ExitHandlerResult)
    ensures
        spec_rdtscp_outcome(*old(state), *final(state), r),
{
    let tsc = state.emulated_tsc;
    let tsc_aux = state.msr_state.tsc_aux;
    state.gprs.rax = tsc & 0xFFFF_FFFF;
    state.gprs.rdx = tsc >> 32;
    state.gprs.rcx = tsc_aux & 0xFFFF_FFFF;
    finish_with_advance(state)
}

/// What `handle_rdpmc` makes of `s` (as `after`) and returns.
pub open spec fn spec_rdpmc_outcome<I: InstructionCounter>(s: VmState<I>, after: VmState<I>, r: ExitHandlerResult) -> bool {
    &&& after.gprs == (GeneralPurposeRegisters { rax: 0, rdx: 0, ..s.gprs })
    &&& after.vmcs@ == spec_vmcs_after_advance(s.vmcs@)
    &&& r == spec_result_after_advance(s.vmcs@, ExitHandlerResult::Continue)
    &&& after == (VmState { vmcs: after.vmcs, gprs: after.gprs, ..s })
}

/// RDPMC: every counter reads as 0, then RIP steps over the instruction.
pub fn handle_rdpmc<I: InstructionCounter>(state: &mut VmState<I>) -> (r: ExitHandlerResult)
    ensures
        spec_rdpmc_outcome(*old(state), *final(state), r),
{
    state.gprs.rax = 0;
    state.gprs.rdx = 0;
    finish_with_advance(state)
}

/// The emulated TSC an idle instruction advances to: the APIC timer
/// deadline, or the stop TSC when that comes first; `None` when no timer is
/// armed or the target is not ahead of the current TSC.
pub open spec fn spec_idle_target<I: InstructionCounter>(state: VmState<I>) -> Option<u64> {
    let deadline = state.devices.apic.timer_deadline;
    if deadline == 0 {
        None
    } else {
        let target = match state.stop_at_tsc {
            Some(s) => if s < deadline {
                s
            } else {
                deadline
            },
            None => deadline,
        };
        if target > state.emulated_tsc {
            Some(target)
        } else {
            None
        }
    }
}

/// What `handle_idle` makes of `s` (as `after`) and returns.
pub open spec fn spec_idle_outcome<I: InstructionCounter>(s: VmState<I>, after: VmState<I>, r: ExitHandlerResult) -> bool {
    &&& match spec_idle_target(s) {
            Some(t) => {
                &&& after.emulated_tsc == t
                &&& after.tsc_offset == s.tsc_offset + (t - s.emulated_tsc)
            },
            None => {
                &&& after.emulated_tsc == s.emulated_tsc
                &&& after.tsc_offset == s.tsc_offset
            }
    }
    &&& after.vmcs@ == spec_vmcs_after_advance(s.vmcs@)
    &&& r == spec_result_after_advance(s.vmcs@, ExitHandlerResult::Continue)
    &&& after == (VmState {
            vmcs: after.vmcs,
            emulated_tsc: after.emulated_tsc,
            tsc_offset: after.tsc_offset,
            ..s
    })
}

/// HLT/MWAIT: with a timer armed, time jumps ahead to its deadline (or to
/// the stop TSC when that comes first): the TSC offset grows by the jump
/// and the emulated TSC lands on the target. Then RIP steps over the
/// instruction.
pub fn handle_idle<I: InstructionCounter>(state: &mut VmState<I>) -> (r: ExitHandlerResult)
    requires
        spec_idle_target(*old(state)) matches Some(t) ==> old(state).tsc_offset + (t
            - old(state).emulated_tsc) <= u64::MAX,
    ensures
        spec_idle_outcome(*old(state), *final(state), r),
{
    let current_tsc = state.emulated_tsc;
    let timer_deadline = state.devices.apic.timer_deadline;
    if timer_deadline > 0 {
        let target = match state.stop_at_tsc {
            Some(s) => if s < timer_deadline {
                s
            } else {
                timer_deadline
            },
            None => timer_deadline,
        };
        if target > current_tsc {
            let delta = target - current_tsc;
            state.tsc_offset = state.tsc_offset + delta;
            state.emulated_tsc = target;
        }
    }
    finish_with_advance(state)
}


/// An idle exit never moves the emulated TSC backwards, and moves the TSC
/// offset by exactly as much as the emulated TSC, so the instruction-count
/// part of the emulated TSC is unchanged.
pub proof fn lemma_idle_keeps_time_monotonic<I: InstructionCounter>(
    s: VmState<I>,
    after: VmState<I>,
    r: ExitHandlerResult,
)
    requires
        spec_idle_outcome(s, after, r),
        s.emulated_tsc >= s.tsc_offset,
    ensures
        after.emulated_tsc >= s.emulated_tsc,
        after.emulated_tsc - after.tsc_offset == s.emulated_tsc - s.tsc_offset,
{
}

} // verus!
