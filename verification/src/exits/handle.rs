//! The VM exit path: classify the exit, advance the emulated TSC, dispatch
//! to a handler, then record statistics, place the next forced exit (monitor
//! trap flag), stop at the requested TSC and log.
use vstd::prelude::*;
use crate::exits::cr::{handle_cr_access, spec_cr_access_flush, spec_cr_access_outcome, spec_tlb_after};
use crate::traits::tlb::TlbControl;
use crate::exits::emulation::{
    emulate_ept_action, emulate_exit, spec_emulation_frame, spec_ept_emulated, ExitEmulation,
};
use crate::exits::ept::{
    ept_violation_action, spec_ept_violation_action, spec_is_apic, spec_is_ioapic,
    spec_violation_gpa, EptViolationAction,
};
use crate::exits::helpers::{
    advance_rip, spec_result_after_advance, spec_vmcs_after_advance, ExitError, ExitHandlerResult,
};
use crate::exits::interrupts::{disable_interrupt_window_exiting, spec_disable_window};
use crate::exits::qualifications::{
    spec_cr_access_qualification, spec_ept_violation_qualification, CrAccessQualification,
    EptViolationQualification,
};
use crate::exits::reasons::ExitReason;
use crate::exits::time::{
    handle_idle, handle_rdpmc, handle_rdtsc, handle_rdtscp, spec_idle_outcome, spec_idle_target,
    spec_rdpmc_outcome, spec_rdtsc_outcome, spec_rdtscp_outcome,
};
use crate::exits::vmcall::{handle_vmcall, spec_vmcall_outcome};
use crate::fields::{VmcsField32, VmcsFieldNatural};
use crate::logging::entry::MAX_LOG_ENTRIES;
use crate::timing::TscSource;
use crate::traits::capabilities::VmxCapabilities;
use crate::traits::controls::cpu_based;
use crate::traits::instruction_counter::InstructionCounter;
use crate::vm::root::RootVm;
use crate::vm_state::stats::{lemma_record_adds_to_totals, AllExitStats, ExitStats};
use crate::vm_state::vm::{LogMode, VmState};
use crate::vmcs::VmcsView;

verus! {

/// Error when the primary controls cannot be read to toggle MTF.
pub const MTF_READ_FAILED: &'static str = "Failed to read primary controls for MTF";

/// `x - y`, or 0 when `y > x`.
pub open spec fn spec_sat_sub(x: u64, y: u64) -> u64 {
    if x < y {
        0
    } else {
        (x - y) as u64
    }
}

/// Instruction count at which the armed, enabled and unmasked APIC timer
/// fires (`timer_deadline - tsc_offset`, saturating); `None` otherwise.
pub open spec fn spec_next_timer_exit_count<I: InstructionCounter>(state: VmState<I>) -> Option<u64> {
    let apic = state.devices.apic;
    if apic.timer_deadline == 0 || apic.svr & 0x100 == 0 || apic.lvt_timer & 0x10000 != 0 {
        None
    } else {
        Some(spec_sat_sub(apic.timer_deadline, state.tsc_offset))
    }
}

/// Instruction count at which the stop TSC is reached
/// (`stop_at_tsc - tsc_offset`, saturating); `None` without a stop TSC.
pub open spec fn spec_next_stop_exit_count<I: InstructionCounter>(state: VmState<I>) -> Option<u64> {
    match state.stop_at_tsc {
        Some(s) => Some(spec_sat_sub(s, state.tsc_offset)),
        None => None,
    }
}

/// Instruction count of the APIC timer expiry.
fn next_timer_exit_count<I: InstructionCounter>(state: &VmState<I>) -> (r: Option<u64>)
    ensures
        r == spec_next_timer_exit_count(*state),
{
    let apic = &state.devices.apic;
    if apic.timer_deadline == 0 {
        return None;
    }
    if (apic.svr & 0x100) == 0 {
        return None;
    }
    if (apic.lvt_timer & 0x10000) != 0 {
        return None;
    }
    Some(apic.timer_deadline.saturating_sub(state.tsc_offset))
}

/// Instruction count at which the stop TSC is reached.
fn next_stop_exit_count<I: InstructionCounter>(state: &VmState<I>) -> (r: Option<u64>)
    ensures
        r == spec_next_stop_exit_count(*state),
{
    match state.stop_at_tsc {
        Some(s) => Some(s.saturating_sub(state.tsc_offset)),
        None => None,
    }
}

/// The next forced-exit instruction count: the nearer of the timer expiry
/// and the stop point that still lie ahead of the current count;
/// `u64::MAX` when neither does.
pub open spec fn spec_next_forced_exit<I: InstructionCounter>(state: VmState<I>) -> u64 {
    let count = state.last_instruction_count;
    let a = match spec_next_timer_exit_count(state) {
        Some(c) => if c > count {
            c
        } else {
            u64::MAX
        },
        None => u64::MAX,
    };
    match spec_next_stop_exit_count(state) {
        Some(c) => if c > count && c < a {
            c
        } else {
            a
        },
        None => a,
    }
}

/// Whether the current count lies in the margin window just before the next
/// forced exit.
pub open spec fn spec_in_margin(count: u64, next: u64, margin: u64) -> bool {
    next != u64::MAX && count >= spec_sat_sub(next, margin) && count < next
}

/// Whether the current TSC lies in the single-step range.
pub open spec fn spec_in_single_step<I: InstructionCounter>(state: VmState<I>) -> bool {
    let tsc = state.last_instruction_count + state.tsc_offset;
    match state.single_step_tsc_range {
        Some((start, end)) => start <= tsc && tsc < end,
        None => false,
    }
}

/// Whether MTF should be on: single-stepping, or inside the margin window.
pub open spec fn spec_mtf_wanted<I: InstructionCounter>(state: VmState<I>, margin: u64) -> bool {
    spec_in_single_step(state) || spec_in_margin(
        state.last_instruction_count,
        spec_next_forced_exit(state),
        margin,
    )
}

/// Whether `update_mtf_state` re-arms the sampling counter.
pub open spec fn spec_realigns<I: InstructionCounter>(state: VmState<I>, margin: u64) -> bool {
    let next = spec_next_forced_exit(state);
    next != state.next_periodic_exit_count && next != u64::MAX && next
        > state.last_instruction_count + margin
}

/// What `update_mtf_state` needs to compute without overflow.
pub open spec fn spec_mtf_update_fits<I: InstructionCounter>(state: VmState<I>, margin: u64) -> bool {
    let next = spec_next_forced_exit(state);
    &&& state.last_instruction_count + state.tsc_offset <= u64::MAX
    &&& (next != state.next_periodic_exit_count && next != u64::MAX)
        ==> state.last_instruction_count + margin <= u64::MAX
    &&& (spec_in_margin(state.last_instruction_count, next, margin) && !state.mtf_enabled)
        ==> next >= margin
}

/// `after` and `r` are what `update_mtf_state(margin)` makes of `s` and
/// returns (the instruction counter may be re-armed).
pub open spec fn spec_mtf_updated<I: InstructionCounter>(
    s: VmState<I>,
    after: VmState<I>,
    margin: u64,
    r: Result<(), ExitError>,
) -> bool {
            let count = s.last_instruction_count;
            let next = spec_next_forced_exit(s);
            let in_margin = spec_in_margin(count, next, margin);
            let wanted = spec_mtf_wanted(s, margin);
            let skid = if in_margin && !s.mtf_enabled {
                spec_sat_sub(count, (next - margin) as u64)
            } else {
                s.pending_pmi_skid
            };
            &&& !spec_realigns(s, margin) ==> after.instruction_counter == s.instruction_counter
            &&& spec_realigns(s, margin) ==> s.instruction_counter.spec_realigned(
                (next - count - margin) as u64,
                after.instruction_counter,
            )
            &&& if wanted == s.mtf_enabled {
                &&& r is Ok
                &&& after == VmState {
                    instruction_counter: after.instruction_counter,
                    next_periodic_exit_count: next,
                    pending_pmi_skid: skid,
                    ..s
                }
            } else {
                match s.vmcs@.read32(VmcsField32::PrimaryProcBasedVmExecControls) {
                    Err(_) => {
                        &&& r == Err::<(), ExitError>(ExitError::Fatal(MTF_READ_FAILED))
                        &&& after == VmState {
                            instruction_counter: after.instruction_counter,
                            next_periodic_exit_count: next,
                            pending_pmi_skid: skid,
                            ..s
                        }
                    },
                    Ok(c) => {
                        &&& r is Ok
                        &&& after.vmcs@ == s.vmcs@.set32(
                            VmcsField32::PrimaryProcBasedVmExecControls,
                            if wanted {
                                c | cpu_based::MONITOR_TRAP_FLAG
                            } else {
                                c & !cpu_based::MONITOR_TRAP_FLAG
                            },
                        )
                        &&& after == VmState {
                            instruction_counter: after.instruction_counter,
                            vmcs: after.vmcs,
                            next_periodic_exit_count: next,
                            pending_pmi_skid: skid,
                            mtf_enabled: wanted,
                            ..s
                        }
                    },
                }
            }
}

/// Update the next forced exit and the monitor trap flag. The next forced
/// exit is placed on the nearer of the timer expiry and the stop point (the
/// sampling counter re-armed `margin` instructions before it when it moves);
/// MTF is on while single-stepping or inside the margin window before it.
/// On entering the window the PMU skid is recorded.
pub fn update_mtf_state<I: InstructionCounter>(state: &mut VmState<I>, margin: u64) -> (r: Result<(), ExitError>)
    requires
        spec_mtf_update_fits(*old(state), margin),
    ensures
        spec_mtf_updated(*old(state), *final(state), margin, r),
{
    let count = state.last_instruction_count;
    let tsc = count + state.tsc_offset;
    let currently_enabled = state.mtf_enabled;
    let should_single_step = match state.single_step_tsc_range {
        Some((start, end)) => tsc >= start && tsc < end,
        None => false,
    };
    let mut new_next: u64 = u64::MAX;
    if let Some(timer_count) = next_timer_exit_count(state) {
        if timer_count > count {
            new_next = timer_count;
        }
    }
    if let Some(stop_count) = next_stop_exit_count(state) {
        if stop_count > count && stop_count < new_next {
            new_next = stop_count;
        }
    }
    let prev_next = state.next_periodic_exit_count;
    if new_next != prev_next {
        state.next_periodic_exit_count = new_next;
        if new_next != u64::MAX && new_next > count + margin {
            let period = new_next - count - margin;
            state.instruction_counter.realign_sampling(period);
        }
    }
    let in_margin = new_next != u64::MAX && count >= new_next.saturating_sub(margin) && count
        < new_next;
    if in_margin && !currently_enabled {
        let want = new_next - margin;
        state.pending_pmi_skid = count.saturating_sub(want);
    }
    let should_enable = should_single_step || in_margin;
    if should_enable != currently_enabled {
        let mut controls = match state.vmcs.read32(VmcsField32::PrimaryProcBasedVmExecControls) {
            Ok(c) => c,
            Err(_) => return Err(ExitError::Fatal(MTF_READ_FAILED)),
        };
        if should_enable {
            controls = controls | cpu_based::MONITOR_TRAP_FLAG;
        } else {
            controls = controls & !cpu_based::MONITOR_TRAP_FLAG;
        }
        let _ = state.vmcs.write32(VmcsField32::PrimaryProcBasedVmExecControls, controls);
        state.mtf_enabled = should_enable;
    }
    Ok(())
}

/// Error when exit bookkeeping (statistics, TSC) would overflow.
pub const BOOKKEEPING_OVERFLOW: &'static str = "Exit bookkeeping overflow";

/// Value written to the VMX-preemption timer after it fires (about 10 ms).
pub const PREEMPTION_TIMER_RELOAD: u32 = 0x100000;

/// The exit read from the VMCS, and whether it is deterministic.
#[derive(Debug, Clone, Copy)]
pub struct ExitInfo {
    /// Exit reason.
    pub reason: ExitReason,
    /// Exit qualification.
    pub qualification: u64,
    /// Whether the exit happens at a reproducible instruction count.
    pub deterministic: bool,
}

/// The exit reason (basic reason, bits 15:0) and qualification, or the
/// failed read.
pub open spec fn spec_read_exit(v: VmcsView) -> Result<(ExitReason, u64), ExitError> {
    match v.read32(VmcsField32::VmExitReason) {
        Err(e) => Err(ExitError::VmcsReadError(e)),
        Ok(raw) => match v.read_natural(VmcsFieldNatural::ExitQualification) {
            Err(e) => Err(ExitError::VmcsReadError(e)),
            Ok(q) => Ok((ExitReason::spec_from_basic((raw & 0xFFFF) as u16), q)),
        },
    }
}

/// Whether an exit is deterministic: not an external interrupt,
/// preemption timer or exception/NMI; an EPT violation only on the APIC
/// pages; an MTF step only on the forced-exit boundary or while
/// single-stepping.
pub open spec fn spec_exit_deterministic<I: InstructionCounter>(s: VmState<I>, reason: ExitReason) -> bool {
    match reason {
        ExitReason::ExternalInterrupt | ExitReason::VmxPreemptionTimer
        | ExitReason::ExceptionNmi => false,
        ExitReason::EptViolation => {
            let gpa = spec_violation_gpa(s);
            spec_is_apic(gpa) || spec_is_ioapic(gpa)
        },
        ExitReason::MonitorTrapFlag => (s.last_instruction_count == s.next_periodic_exit_count
            && s.next_periodic_exit_count != u64::MAX) || spec_in_single_step(s),
        _ => true,
    }
}

/// The exit information and the state after `begin_exit`: the exit marked
/// deterministic or not, and for a deterministic exit the emulated TSC set
/// to instruction count plus offset.
pub open spec fn spec_begin<I: InstructionCounter>(s: VmState<I>) -> Result<(ExitInfo, VmState<I>), ExitError> {
    match spec_read_exit(s.vmcs@) {
        Err(e) => Err(e),
        Ok((reason, q)) => {
            let det = spec_exit_deterministic(s, reason);
            Ok(
                (
                    ExitInfo { reason, qualification: q, deterministic: det },
                    VmState {
                        last_exit_deterministic: det,
                        emulated_tsc: if det {
                            (s.last_instruction_count + s.tsc_offset) as u64
                        } else {
                            s.emulated_tsc
                        },
                        ..s
                    },
                ),
            )
        },
    }
}

/// Read the exit, classify it and bring the emulated TSC up to date.
pub fn begin_exit<I: InstructionCounter>(state: &mut VmState<I>) -> (r: Result<ExitInfo, ExitError>)
    requires
        old(state).last_instruction_count + old(state).tsc_offset <= u64::MAX,
    ensures
        match spec_begin(*old(state)) {
            Err(e) => r == Err::<ExitInfo, ExitError>(e) && *final(state) == *old(state),
            Ok((info, s)) => r == Ok::<ExitInfo, ExitError>(info) && *final(state) == s,
        },
{
    let raw = match state.vmcs.read32(VmcsField32::VmExitReason) {
        Ok(v) => v,
        Err(e) => return Err(ExitError::VmcsReadError(e)),
    };
    let qual = match state.vmcs.read_natural(VmcsFieldNatural::ExitQualification) {
        Ok(q) => q,
        Err(e) => return Err(ExitError::VmcsReadError(e)),
    };
    let reason = ExitReason::from_basic((raw & 0xFFFF) as u16);
    let non_deterministic = match reason {
        ExitReason::ExternalInterrupt | ExitReason::VmxPreemptionTimer
        | ExitReason::ExceptionNmi => true,
        ExitReason::EptViolation => {
            let gpa = match state.vmcs.read64(crate::fields::VmcsField64::GuestPhysicalAddr) {
                Ok(g) => g,
                Err(_) => 0,
            };
            !((gpa >= crate::exits::ept::APIC_BASE && gpa < crate::exits::ept::APIC_BASE
                + crate::exits::ept::APIC_SIZE) || (gpa >= crate::exits::ept::IOAPIC_BASE && gpa
                < crate::exits::ept::IOAPIC_BASE + crate::exits::ept::IOAPIC_SIZE))
        },
        ExitReason::MonitorTrapFlag => {
            let count = state.last_instruction_count;
            let tsc = count + state.tsc_offset;
            let on_boundary = count == state.next_periodic_exit_count
                && state.next_periodic_exit_count != u64::MAX;
            let in_single_step_range = match state.single_step_tsc_range {
                Some((start, end)) => tsc >= start && tsc < end,
                None => false,
            };
            !(on_boundary || in_single_step_range)
        },
        _ => false,
    };
    state.last_exit_deterministic = !non_deterministic;
    if !non_deterministic {
        state.emulated_tsc = state.last_instruction_count + state.tsc_offset;
    }
    Ok(ExitInfo { reason, qualification: qual, deterministic: !non_deterministic })
}

/// What dispatching an exit leads to.
#[derive(Debug, Clone, Copy)]
pub enum ExitDispatch {
    /// Handled here, with this result.
    Handled(ExitHandlerResult),
    /// Needs the emulation of an exit whose handler lives outside this crate
    /// (CPUID, MSR, I/O, exception/NMI, XSETBV, RDRAND/RDSEED).
    Emulate(ExitReason, u64),
    /// An EPT violation that needs APIC emulation or copy-on-write.
    EmulateEptViolation(EptViolationAction, u64),
    /// A host interrupt is pending: let it be delivered, then continue.
    HostInterrupt,
}

/// Whether a dispatch of `reason` would step an idle instruction without
/// the TSC offset overflowing.
pub open spec fn spec_dispatch_fits<I: InstructionCounter>(s: VmState<I>, reason: ExitReason) -> bool {
    (reason == ExitReason::Hlt || reason == ExitReason::Mwait) ==> (spec_idle_target(s) matches Some(
        t,
    ) ==> s.tsc_offset + (t - s.emulated_tsc) <= u64::MAX)
}

/// Whether `after` and `r` are what dispatching `info` in `vm` gives, with
/// `emu` copying ahead the pages of a feedback buffer that a VMCALL registers.
pub open spec fn spec_dispatched<I: InstructionCounter, E: ExitEmulation>(
    emu: E,
    vm: RootVm<I>,
    after: RootVm<I>,
    info: ExitInfo,
    caps: VmxCapabilities,
    r: ExitDispatch,
) -> bool {
    let s = vm.state;
    let q = info.qualification;
    let unchanged = after == vm;
    let same_memory = after.memory@ == vm.memory@ && after.children_count == vm.children_count;
    match info.reason {
        ExitReason::Cpuid | ExitReason::MsrRead | ExitReason::MsrWrite
        | ExitReason::IoInstruction | ExitReason::ExceptionNmi | ExitReason::Xsetbv
        | ExitReason::Rdrand | ExitReason::Rdseed => unchanged && r == ExitDispatch::Emulate(
            info.reason,
            q,
        ),
        ExitReason::CrAccess => same_memory && (r matches ExitDispatch::Handled(h)
            && spec_cr_access_outcome(
            s,
            after.state,
            spec_cr_access_qualification(q),
            caps,
            h,
        )),
        ExitReason::EptViolation => unchanged && match spec_ept_violation_action(
            spec_violation_gpa(s),
            spec_ept_violation_qualification(q),
        ) {
            EptViolationAction::Unhandled(_) => r == ExitDispatch::Handled(
                ExitHandlerResult::ExitToUserspace(ExitReason::EptViolation),
            ),
            a => r == ExitDispatch::EmulateEptViolation(a, q),
        },
        ExitReason::Rdtsc => same_memory && (r matches ExitDispatch::Handled(h)
            && spec_rdtsc_outcome(s, after.state, h)),
        ExitReason::Rdtscp => same_memory && (r matches ExitDispatch::Handled(h)
            && spec_rdtscp_outcome(s, after.state, h)),
        ExitReason::Rdpmc => same_memory && (r matches ExitDispatch::Handled(h)
            && spec_rdpmc_outcome(s, after.state, h)),
        ExitReason::MonitorTrapFlag => unchanged && r == ExitDispatch::Handled(
            ExitHandlerResult::Continue,
        ),
        ExitReason::Hlt | ExitReason::Mwait => same_memory && (r matches ExitDispatch::Handled(h)
            && spec_idle_outcome(s, after.state, h)),
        ExitReason::Monitor => same_memory && after.state == VmState {
            vmcs: after.state.vmcs,
            ..s
        } && after.state.vmcs@ == spec_vmcs_after_advance(s.vmcs@) && r == ExitDispatch::Handled(
            spec_result_after_advance(s.vmcs@, ExitHandlerResult::Continue),
        ),
        ExitReason::TripleFault => unchanged && r == ExitDispatch::Handled(
            ExitHandlerResult::Error(ExitError::TripleFault),
        ),
        ExitReason::InvalidGuestState => unchanged && r == ExitDispatch::Handled(
            ExitHandlerResult::Error(ExitError::InvalidGuestState),
        ),
        ExitReason::Vmcall => r matches ExitDispatch::Handled(h) && spec_vmcall_outcome(
            emu,
            vm,
            after,
            h,
        ),
        ExitReason::VmxPreemptionTimer => same_memory && after.state == VmState {
            vmcs: after.state.vmcs,
            ..s
        } && after.state.vmcs@ == s.vmcs@.set32(
            VmcsField32::VmxPreemptionTimerValue,
            PREEMPTION_TIMER_RELOAD,
        ) && r == ExitDispatch::Handled(ExitHandlerResult::ExitToUserspace(info.reason)),
        ExitReason::ExternalInterrupt => unchanged && r == ExitDispatch::HostInterrupt,
        ExitReason::InterruptWindow => same_memory && after.state == VmState {
            vmcs: after.state.vmcs,
            ..s
        } && match spec_disable_window(s.vmcs@) {
            Ok(v) => after.state.vmcs@ == v && r == ExitDispatch::Handled(
                ExitHandlerResult::Continue,
            ),
            Err(e) => after.state.vmcs@ == s.vmcs@ && r == ExitDispatch::Handled(
                ExitHandlerResult::Error(e),
            ),
        },
        _ => unchanged && r == ExitDispatch::Handled(ExitHandlerResult::ExitToUserspace(info.reason)),
    }
}

/// `spec_dispatched` for `vm` with its state replaced by `s`.
pub open spec fn spec_dispatched_from<I: InstructionCounter, E: ExitEmulation>(
    emu: E,
    vm: RootVm<I>,
    s: VmState<I>,
    after: RootVm<I>,
    info: ExitInfo,
    caps: VmxCapabilities,
    r: ExitDispatch,
) -> bool {
    spec_dispatched(emu, RootVm { state: s, ..vm }, after, info, caps, r)
}

/// The VPID whose cached translations dispatching `info` in state `s`
/// flushes (see `spec_cr_access_flush`); none for any exit other than a CR
/// access.
pub open spec fn spec_dispatch_flush<I: InstructionCounter>(s: VmState<I>, info: ExitInfo, caps: VmxCapabilities) -> Option<u16> {
    if info.reason == ExitReason::CrAccess {
        spec_cr_access_flush(s.vmcs@, spec_cr_access_qualification(info.qualification), caps)
    } else {
        None
    }
}

/// Dispatch an exit to its handler; `emu` copies ahead the pages of a
/// feedback buffer that a VMCALL registers.
pub fn dispatch_exit<I: InstructionCounter, E: ExitEmulation, T: TlbControl>(
    vm: &mut RootVm<I>,
    info: &ExitInfo,
    caps: &VmxCapabilities,
    emu: &mut E,
    tlb: &mut T,
) -> (r: ExitDispatch)
    requires
        spec_dispatch_fits(old(vm).state, info.reason),
    ensures
        spec_dispatched(*old(emu), *old(vm), *final(vm), *info, *caps, r),
        info.reason != ExitReason::Vmcall ==> *final(emu) == *old(emu),
        spec_tlb_after(*old(tlb), spec_dispatch_flush(old(vm).state, *info, *caps), *final(tlb)),
{
    let qual = info.qualification;
    match info.reason {
        ExitReason::Cpuid | ExitReason::MsrRead | ExitReason::MsrWrite
        | ExitReason::IoInstruction | ExitReason::ExceptionNmi | ExitReason::Xsetbv
        | ExitReason::Rdrand | ExitReason::Rdseed => ExitDispatch::Emulate(info.reason, qual),
        ExitReason::CrAccess => ExitDispatch::Handled(
            handle_cr_access(
                &mut vm.state,
                CrAccessQualification::from_qualification(qual),
                caps,
                tlb,
            ),
        ),
        ExitReason::EptViolation => {
            let q = EptViolationQualification::from_qualification(qual);
            match ept_violation_action(&vm.state, &q) {
                EptViolationAction::Unhandled(_) => ExitDispatch::Handled(
                    ExitHandlerResult::ExitToUserspace(ExitReason::EptViolation),
                ),
                a => ExitDispatch::EmulateEptViolation(a, qual),
            }
        },
        ExitReason::Rdtsc => ExitDispatch::Handled(handle_rdtsc(&mut vm.state)),
        ExitReason::Rdtscp => ExitDispatch::Handled(handle_rdtscp(&mut vm.state)),
        ExitReason::Rdpmc => ExitDispatch::Handled(handle_rdpmc(&mut vm.state)),
        ExitReason::MonitorTrapFlag => ExitDispatch::Handled(ExitHandlerResult::Continue),
        ExitReason::Hlt | ExitReason::Mwait => ExitDispatch::Handled(handle_idle(&mut vm.state)),
        ExitReason::Monitor => match advance_rip(&mut vm.state.vmcs) {
            Ok(()) => ExitDispatch::Handled(ExitHandlerResult::Continue),
            Err(e) => ExitDispatch::Handled(ExitHandlerResult::Error(e)),
        },
        ExitReason::TripleFault => ExitDispatch::Handled(
            ExitHandlerResult::Error(ExitError::TripleFault),
        ),
        ExitReason::InvalidGuestState => ExitDispatch::Handled(
            ExitHandlerResult::Error(ExitError::InvalidGuestState),
        ),
        ExitReason::Vmcall => ExitDispatch::Handled(handle_vmcall(vm, emu)),
        ExitReason::VmxPreemptionTimer => {
            let _ = vm.state.vmcs.write32(
                VmcsField32::VmxPreemptionTimerValue,
                PREEMPTION_TIMER_RELOAD,
            );
            ExitDispatch::Handled(ExitHandlerResult::ExitToUserspace(info.reason))
        },
        ExitReason::ExternalInterrupt => ExitDispatch::HostInterrupt,
        ExitReason::InterruptWindow => match disable_interrupt_window_exiting(&mut vm.state.vmcs) {
            Ok(()) => ExitDispatch::Handled(ExitHandlerResult::Continue),
            Err(e) => ExitDispatch::Handled(ExitHandlerResult::Error(e)),
        },
        _ => ExitDispatch::Handled(ExitHandlerResult::ExitToUserspace(info.reason)),
    }
}

/// The statistics after recording the exit: MTF steps inside the margin
/// window are only counted apart; other exits go to their bucket.
pub open spec fn spec_stats_after<I: InstructionCounter>(s: VmState<I>, info: ExitInfo, cycles: u64) -> AllExitStats {
    if info.reason == ExitReason::MonitorTrapFlag && !info.deterministic {
        AllExitStats {
            periodic_margin_steps: (s.exit_stats.periodic_margin_steps + 1) as u64,
            ..s.exit_stats
        }
    } else {
        let b = s.exit_stats.bucket(info.reason);
        s.exit_stats.with_bucket(
            info.reason,
            ExitStats { count: (b.count + 1) as u64, cycles: (b.cycles + cycles) as u64 },
        )
    }
}

/// What finishing an exit needs to compute without overflow.
pub open spec fn spec_finish_fits<I: InstructionCounter>(s: VmState<I>, info: ExitInfo, cycles: u64, margin: u64) -> bool {
    &&& if info.reason == ExitReason::MonitorTrapFlag && !info.deterministic {
        s.exit_stats.periodic_margin_steps < u64::MAX
    } else {
        &&& s.exit_stats.bucket(info.reason).count < u64::MAX
        &&& s.exit_stats.bucket(info.reason).cycles + cycles <= u64::MAX
    }
    &&& spec_mtf_update_fits(s, margin)
}

/// The last steps of an exit, after MTF is updated: at a deterministic exit
/// that reached the stop TSC, log as at shutdown and stop; else log the
/// exit when logging is on, exiting to userspace when the buffer is full;
/// else return the handler's result.
pub open spec fn spec_finish_tail<I: InstructionCounter>(
    s: VmState<I>,
    after: VmState<I>,
    info: ExitInfo,
    result: ExitHandlerResult,
    r: ExitHandlerResult,
) -> bool {
    let stop_reached = match s.stop_at_tsc {
        Some(stop) => info.deterministic && s.emulated_tsc >= stop,
        None => false,
    };
    if stop_reached {
        &&& s.spec_logged_shutdown(after)
        &&& r == ExitHandlerResult::ExitToUserspace(ExitReason::StopTscReached)
    } else if s.log_mode != LogMode::Disabled {
        &&& s.spec_logged_exit(after, info.reason, info.qualification, info.deterministic)
        &&& r == if after.log_entry_count >= MAX_LOG_ENTRIES {
            ExitHandlerResult::ExitToUserspace(ExitReason::LogBufferFull)
        } else {
            result
        }
    } else {
        &&& after == s
        &&& r == result
    }
}

/// Whether `after` and `r` are what finishing the exit gives: statistics
/// recorded, MTF updated (see `spec_mtf_updated`; its error ends the exit),
/// then `spec_finish_tail`.
pub open spec fn spec_finished<I: InstructionCounter>(
    s: VmState<I>,
    after: VmState<I>,
    info: ExitInfo,
    result: ExitHandlerResult,
    cycles: u64,
    margin: u64,
    r: ExitHandlerResult,
) -> bool {
    let s1 = VmState { exit_stats: spec_stats_after(s, info, cycles), ..s };
    exists|s2: VmState<I>, m: Result<(), ExitError>|
        #[trigger] spec_mtf_updated(s1, s2, margin, m) && match m {
            Err(e) => after == s2 && r == ExitHandlerResult::Error(e),
            Ok(()) => spec_finish_tail(s2, after, info, result, r),
        }
}

/// Finish an exit after its handler ran: record statistics, update MTF,
/// stop at the requested TSC, log.
pub fn finish_exit<I: InstructionCounter>(
    state: &mut VmState<I>,
    info: &ExitInfo,
    result: ExitHandlerResult,
    cycles: u64,
    margin: u64,
) -> (r: ExitHandlerResult)
    requires
        spec_finish_fits(*old(state), *info, cycles, margin),
    ensures
        spec_finished(*old(state), *final(state), *info, result, cycles, margin, r),
{
    if matches!(info.reason, ExitReason::MonitorTrapFlag) && !info.deterministic {
        state.exit_stats.periodic_margin_steps = state.exit_stats.periodic_margin_steps + 1;
    } else {
        state.exit_stats.record(info.reason, cycles);
    }
    let ghost s1 = *state;
    let m = update_mtf_state(state, margin);
    let ghost s2 = *state;
    assert(spec_mtf_updated(s1, s2, margin, m));
    if let Err(e) = m {
        return ExitHandlerResult::Error(e);
    }
    if info.deterministic {
        if let Some(stop) = state.stop_at_tsc {
            if state.emulated_tsc >= stop {
                state.log_shutdown();
                return ExitHandlerResult::ExitToUserspace(ExitReason::StopTscReached);
            }
        }
    }
    if state.log_enabled() {
        state.log_exit(info.reason, info.qualification, info.deterministic);
        if state.log_buffer_full() {
            return ExitHandlerResult::ExitToUserspace(ExitReason::LogBufferFull);
        }
    }
    result
}

/// The next forced-exit instruction count.
fn next_forced_exit<I: InstructionCounter>(state: &VmState<I>) -> (r: u64)
    ensures
        r == spec_next_forced_exit(*state),
{
    let count = state.last_instruction_count;
    let mut next: u64 = u64::MAX;
    if let Some(c) = next_timer_exit_count(state) {
        if c > count {
            next = c;
        }
    }
    if let Some(c) = next_stop_exit_count(state) {
        if c > count && c < next {
            next = c;
        }
    }
    next
}

/// Whether finishing the exit would compute without overflow.
pub fn finish_fits<I: InstructionCounter>(state: &VmState<I>, info: &ExitInfo, cycles: u64, margin: u64) -> (r: bool)
    ensures
        r == spec_finish_fits(*state, *info, cycles, margin),
{
    if matches!(info.reason, ExitReason::MonitorTrapFlag) && !info.deterministic {
        if state.exit_stats.periodic_margin_steps == u64::MAX {
            return false;
        }
    } else {
        let b = state.exit_stats.bucket_of(info.reason);
        if b.count == u64::MAX || b.cycles > u64::MAX - cycles {
            return false;
        }
    }
    let count = state.last_instruction_count;
    if count > u64::MAX - state.tsc_offset {
        return false;
    }
    let next = next_forced_exit(state);
    if next != state.next_periodic_exit_count && next != u64::MAX && count > u64::MAX - margin {
        return false;
    }
    let in_margin = next != u64::MAX && count >= next.saturating_sub(margin) && count < next;
    if in_margin && !state.mtf_enabled && next < margin {
        return false;
    }
    true
}

/// One run of the exit path from `vm` whose state `begin_exit` made `s`:
/// dispatch gives `mid` and `d`; the handler (here, or `emu` on the parts
/// of the VM it may change, for the request dispatch gave it) gives `post`
/// and `res`; then, when the bookkeeping (with `cycles` of handling) fits,
/// `finish_exit` gives `after`
/// and `r`, else the exit ends with a fatal error.
pub open spec fn spec_exit_path<I: InstructionCounter, E: ExitEmulation>(
    emu: E,
    vm: RootVm<I>,
    s: VmState<I>,
    info: ExitInfo,
    caps: VmxCapabilities,
    margin: u64,
    mid: RootVm<I>,
    d: ExitDispatch,
    post: RootVm<I>,
    res: ExitHandlerResult,
    cycles: u64,
    after: RootVm<I>,
    r: ExitHandlerResult,
) -> bool {
    &&& spec_dispatched_from(emu, vm, s, mid, info, caps, d)
    &&& d matches ExitDispatch::Handled(h) ==> post == mid && res == h
    &&& d is HostInterrupt ==> post == mid && res == ExitHandlerResult::Continue
    &&& d matches ExitDispatch::Emulate(reason, q) ==> spec_emulation_frame(mid, post)
        && emu.spec_emulates(reason, q, res)
    &&& d matches ExitDispatch::EmulateEptViolation(a, q) ==> spec_emulation_frame(mid, post)
        && spec_ept_emulated(emu, a, q, res)
    &&& if spec_finish_fits(post.state, info, cycles, margin) {
        &&& after.memory@ == post.memory@
        &&& after.children_count == post.children_count
        &&& spec_finished(post.state, after.state, info, res, cycles, margin, r)
    } else {
        &&& after == post
        &&& r == ExitHandlerResult::Error(ExitError::Fatal(BOOKKEEPING_OVERFLOW))
    }
}

/// Dispatching an exit changes neither its classification nor the exit
/// counts.
#[verifier::rlimit(60)]
proof fn lemma_dispatch_keeps_bookkeeping<I: InstructionCounter, E: ExitEmulation>(
    emu: E,
    vm: RootVm<I>,
    mid: RootVm<I>,
    info: ExitInfo,
    caps: VmxCapabilities,
    d: ExitDispatch,
)
    requires
        spec_dispatched(emu, vm, mid, info, caps, d),
    ensures
        mid.state.last_exit_deterministic == vm.state.last_exit_deterministic,
        mid.state.exit_stats.spec_total_count() == vm.state.exit_stats.spec_total_count(),
{
    match info.reason {
        ExitReason::Vmcall => {},
        ExitReason::CrAccess => {},
        ExitReason::Hlt | ExitReason::Mwait => {},
        ExitReason::Rdtsc | ExitReason::Rdtscp | ExitReason::Rdpmc => {},
        _ => {},
    }
}

/// Finishing an exit keeps its classification and counts it once (an MTF
/// step inside the margin window apart).
#[verifier::spinoff_prover]
#[verifier::rlimit(50)]
proof fn lemma_finish_counts_once<I: InstructionCounter>(
    s: VmState<I>,
    after: VmState<I>,
    info: ExitInfo,
    res: ExitHandlerResult,
    cycles: u64,
    margin: u64,
    r: ExitHandlerResult,
)
    requires
        spec_finish_fits(s, info, cycles, margin),
        spec_finished(s, after, info, res, cycles, margin, r),
    ensures
        after.last_exit_deterministic == s.last_exit_deterministic,
        after.exit_stats.spec_total_count() == s.exit_stats.spec_total_count() + if info.reason
            == ExitReason::MonitorTrapFlag && !info.deterministic {
            0int
        } else {
            1int
        },
{
    let s1 = VmState { exit_stats: spec_stats_after(s, info, cycles), ..s };
    let (s2, m) = choose|s2: VmState<I>, m: Result<(), ExitError>|
        #[trigger] spec_mtf_updated(s1, s2, margin, m) && match m {
            Err(e) => after == s2 && r == ExitHandlerResult::Error(e),
            Ok(()) => spec_finish_tail(s2, after, info, res, r),
        };
    if !(info.reason == ExitReason::MonitorTrapFlag && !info.deterministic) {
        let b = s.exit_stats.bucket(info.reason);
        lemma_record_adds_to_totals(
            s.exit_stats,
            info.reason,
            cycles,
            s1.exit_stats,
        );
    }
    assert(s2.exit_stats == s1.exit_stats);
    assert(s2.last_exit_deterministic == s.last_exit_deterministic);
}

/// The bookkeeping every exit path keeps, measured from the state before
/// the exit: the exit stays classified as `begin_exit` classified it, and
/// unless the bookkeeping overflowed, the exit is counted once (an MTF step
/// inside the margin window before a forced exit is counted apart).
pub open spec fn spec_exit_bookkeeping<I: InstructionCounter>(
    before: VmState<I>,
    info: ExitInfo,
    after: VmState<I>,
    r: ExitHandlerResult,
) -> bool {
    &&& after.last_exit_deterministic == info.deterministic
    &&& r != ExitHandlerResult::Error(ExitError::Fatal(BOOKKEEPING_OVERFLOW))
        ==> after.exit_stats.spec_total_count() == before.exit_stats.spec_total_count() + if info.reason
        == ExitReason::MonitorTrapFlag && !info.deterministic {
        0int
    } else {
        1int
    }
}

/// Handle a VM exit: read and classify it (`begin_exit`), run its handler
/// (`dispatch_exit`, or `emu` for handlers outside this crate), then record
/// statistics, update MTF, stop at the requested TSC and log
/// (`finish_exit`), counting the cycles between the two readings of `tsc`
/// around the handler. When that bookkeeping would overflow after an outside
/// handler ran, the exit ends with a fatal error instead.
pub fn handle_exit<I: InstructionCounter, E: ExitEmulation, T: TscSource, L: TlbControl>(
    vm: &mut RootVm<I>,
    caps: &VmxCapabilities,
    margin: u64,
    emu: &mut E,
    tsc: &mut T,
    tlb: &mut L,
) -> (r: ExitHandlerResult)
    requires
        old(vm).state.last_instruction_count + old(vm).state.tsc_offset <= u64::MAX,
        spec_begin(old(vm).state) matches Ok((info, s)) ==> spec_dispatch_fits(s, info.reason),
    ensures
        match spec_begin(old(vm).state) {
            Err(e) => r == ExitHandlerResult::Error(e) && *final(vm) == *old(vm) && *final(tlb)
                == *old(tlb),
            Ok((info, s)) => {
                &&& exists|mid: RootVm<I>, d: ExitDispatch, post: RootVm<I>, res: ExitHandlerResult, cycles: u64|
                    #[trigger] spec_exit_path(*old(emu), *old(vm), s, info, *caps, margin, mid, d, post, res, cycles, *final(vm), r)
                &&& spec_exit_bookkeeping(old(vm).state, info, final(vm).state, r)
                &&& spec_tlb_after(*old(tlb), spec_dispatch_flush(s, info, *caps), *final(tlb))
            },
        },
{
    let start_tsc = tsc.read_tsc();
    let info = match begin_exit(&mut vm.state) {
        Ok(i) => i,
        Err(e) => return ExitHandlerResult::Error(e),
    };
    let ghost begun = *vm;
    let d = dispatch_exit(vm, &info, caps, emu, tlb);
    let ghost mid = *vm;
    let result = match d {
        ExitDispatch::Handled(h) => h,
        ExitDispatch::Emulate(reason, q) => emulate_exit(vm, reason, q, emu),
        ExitDispatch::EmulateEptViolation(a, q) => emulate_ept_action(vm, a, q, emu),
        ExitDispatch::HostInterrupt => {
            emu.service_host_interrupt();
            ExitHandlerResult::Continue
        },
    };
    let ghost post = *vm;
    let end_tsc = tsc.read_tsc();
    let cycles = end_tsc.saturating_sub(start_tsc);
    if !finish_fits(&vm.state, &info, cycles, margin) {
        proof {
            assert(spec_exit_path(*old(emu), *old(vm), begun.state, info, *caps, margin, mid, d, post, result, cycles, *vm, ExitHandlerResult::Error(ExitError::Fatal(BOOKKEEPING_OVERFLOW))));
            lemma_dispatch_keeps_bookkeeping(*old(emu), begun, mid, info, *caps, d);
        }
        return ExitHandlerResult::Error(ExitError::Fatal(BOOKKEEPING_OVERFLOW));
    }
    let r = finish_exit(&mut vm.state, &info, result, cycles, margin);
    proof {
        assert(spec_exit_path(*old(emu), *old(vm), begun.state, info, *caps, margin, mid, d, post, result, cycles, *vm, r));
        lemma_dispatch_keeps_bookkeeping(*old(emu), begun, mid, info, *caps, d);
        assert(post.state.exit_stats.spec_total_count() == mid.state.exit_stats.spec_total_count());
        lemma_finish_counts_once(post.state, vm.state, info, result, cycles, margin, r);
    }
    r
}

} // verus!
