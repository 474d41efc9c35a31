//! Exits emulated outside this crate (CPUID, MSR accesses, port I/O,
//! exceptions and NMIs, XSETBV, RDRAND/RDSEED, APIC MMIO, copy-on-write
//! faults, copying a feedback buffer's pages ahead of use): what an
//! emulator is given of the VM, and what it reports back.
use vstd::prelude::*;
use crate::exits::ept::EptViolationAction;
use crate::exits::helpers::ExitHandlerResult;
use crate::exits::reasons::ExitReason;
use crate::host::HostState;
use crate::registers::gpr::GeneralPurposeRegisters;
use crate::traits::instruction_counter::InstructionCounter;
use crate::vm::root::RootVm;
use crate::vm_state::serial_output::SerialOutput;
use crate::vm_state::stats::{AllExitStats, CowStats};
use crate::vm_state::vm::{DeviceStates, FeedbackBufferInfo, GuestMsrState, VmState};
use crate::vmcs::MockVmcs;

verus! {

/// The parts of a VM that an emulated exit may change, and the values it may
/// read. Everything else (exit bookkeeping, time, logging, the rest of the
/// statistics) is out of the emulator's reach.
pub struct EmulatedParts<'a> {
    /// The VMCS (RIP, injected events, guest state).
    pub vmcs: &'a mut MockVmcs,
    /// Guest general-purpose registers.
    pub gprs: &'a mut GeneralPurposeRegisters,
    /// Emulated devices.
    pub devices: &'a mut DeviceStates,
    /// Guest MSRs emulated in software.
    pub msr_state: &'a mut GuestMsrState,
    /// IA32_KERNEL_GS_BASE.
    pub kernel_gs_base: &'a mut u64,
    /// XCR0 mask.
    pub xcr0_mask: &'a mut u64,
    /// Guest console output.
    pub serial_output: &'a mut SerialOutput,
    /// Guest physical memory.
    pub memory: &'a mut Vec<u8>,
    /// Copy-on-write statistics.
    pub cow_stats: &'a mut CowStats,
    /// Host state (read only).
    pub host_state: &'a HostState,
    /// Emulated TSC at this exit.
    pub emulated_tsc: u64,
    /// TSC frequency in Hz.
    pub tsc_frequency: u64,
}

/// Emulation of exits whose handlers live outside this crate.
///
/// Each method reports its outcome through a spec function of the
/// implementation; an implementation that states nothing keeps the default
/// (every outcome possible).
pub trait ExitEmulation {
    /// Whether `r` is a possible result of emulating an exit of `reason`
    /// with qualification `qualification`.
    open spec fn spec_emulates(&self, reason: ExitReason, qualification: u64, r: ExitHandlerResult) -> bool {
        true
    }

    /// Whether `r` is a possible result of emulating the APIC or I/O APIC
    /// access `action` with EPT qualification `qualification`.
    open spec fn spec_emulates_apic(
        &self,
        action: EptViolationAction,
        qualification: u64,
        r: ExitHandlerResult,
    ) -> bool {
        true
    }

    /// Whether `r` is a possible outcome of the copy-on-write fault at
    /// `gpa`: `Some` result when a page was copied, `None` when none could
    /// be had.
    open spec fn spec_copies_page(&self, gpa: u64, r: Option<ExitHandlerResult>) -> bool {
        true
    }

    /// Whether copying the pages of the feedback buffer `buffer`, just
    /// registered in slot `index`, may turn guest memory `memory` and the
    /// copy-on-write statistics `cow` into `memory_after` and `cow_after`.
    open spec fn spec_pre_copies(
        &self,
        index: usize,
        buffer: FeedbackBufferInfo,
        memory: Seq<u8>,
        cow: CowStats,
        memory_after: Seq<u8>,
        cow_after: CowStats,
    ) -> bool {
        true
    }

    /// Handle an exit of `reason` with qualification `qualification`.
    fn emulate(&mut self, parts: EmulatedParts<'_>, reason: ExitReason, qualification: u64) -> (r:
        ExitHandlerResult)
        ensures
            old(self).spec_emulates(reason, qualification, r),
    ;

    /// Handle an access to the local APIC or I/O APIC page (`action`).
    fn emulate_apic_access(
        &mut self,
        parts: EmulatedParts<'_>,
        action: EptViolationAction,
        qualification: u64,
    ) -> (r: ExitHandlerResult)
        ensures
            old(self).spec_emulates_apic(action, qualification, r),
    ;

    /// Copy the page written at `gpa`; `None` when no page could be had.
    fn handle_cow_fault(&mut self, parts: EmulatedParts<'_>, gpa: u64) -> (r: Option<
        ExitHandlerResult,
    >)
        ensures
            old(self).spec_copies_page(gpa, r),
    ;

    /// Let a pending host interrupt be delivered.
    fn service_host_interrupt(&mut self);

    /// Copy the copy-on-write pages of the feedback buffer `buffer`, just
    /// registered in slot `index`, so that userspace maps pages that stay put.
    fn pre_cow_feedback_buffer(
        &mut self,
        memory: &mut Vec<u8>,
        cow_stats: &mut CowStats,
        index: usize,
        buffer: FeedbackBufferInfo,
    )
        ensures
            old(self).spec_pre_copies(
                index,
                buffer,
                old(memory)@,
                *old(cow_stats),
                final(memory)@,
                *final(cow_stats),
            ),
    ;
}

/// `after` differs from `before` only in what an emulator may change: the
/// VMCS, registers, devices, emulated MSRs, KERNEL_GS_BASE, XCR0, console
/// output, guest memory and the copy-on-write statistics.
pub open spec fn spec_emulation_frame<I: InstructionCounter>(before: RootVm<I>, after: RootVm<I>) -> bool {
    &&& after.children_count == before.children_count
    &&& after.state == VmState {
        vmcs: after.state.vmcs,
        gprs: after.state.gprs,
        devices: after.state.devices,
        msr_state: after.state.msr_state,
        kernel_gs_base: after.state.kernel_gs_base,
        xcr0_mask: after.state.xcr0_mask,
        serial_output: after.state.serial_output,
        exit_stats: AllExitStats { cow: after.state.exit_stats.cow, ..before.state.exit_stats },
        ..before.state
    }
}

/// The result of an EPT violation with action `action`: APIC accesses as
/// the emulator reports; a copy-on-write fault as the emulator reports when
/// it copied a page, else an exit to userspace to refill the page pool; any
/// other violation an exit to userspace.
pub open spec fn spec_ept_emulated<E: ExitEmulation>(
    emu: E,
    action: EptViolationAction,
    qualification: u64,
    r: ExitHandlerResult,
) -> bool {
    match action {
        EptViolationAction::LocalApic(_) => emu.spec_emulates_apic(action, qualification, r),
        EptViolationAction::IoApic(_) => emu.spec_emulates_apic(action, qualification, r),
        EptViolationAction::CopyOnWrite(gpa) => exists|o: Option<ExitHandlerResult>|
            #[trigger] emu.spec_copies_page(gpa, o) && r == match o {
                Some(x) => x,
                None => ExitHandlerResult::ExitToUserspace(ExitReason::PoolExhausted),
            },
        EptViolationAction::Unhandled(_) => r == ExitHandlerResult::ExitToUserspace(
            ExitReason::EptViolation,
        ),
    }
}

/// Hand an exit of `reason` with qualification `qualification` to `emu`.
pub fn emulate_exit<I: InstructionCounter, E: ExitEmulation>(
    vm: &mut RootVm<I>,
    reason: ExitReason,
    qualification: u64,
    emu: &mut E,
) -> (r: ExitHandlerResult)
    ensures
        spec_emulation_frame(*old(vm), *final(vm)),
        old(emu).spec_emulates(reason, qualification, r),
{
    let emulated_tsc = vm.state.emulated_tsc;
    let tsc_frequency = vm.state.tsc_frequency;
    let state = &mut vm.state;
    emu.emulate(
        EmulatedParts {
            vmcs: &mut state.vmcs,
            gprs: &mut state.gprs,
            devices: &mut state.devices,
            msr_state: &mut state.msr_state,
            kernel_gs_base: &mut state.kernel_gs_base,
            xcr0_mask: &mut state.xcr0_mask,
            serial_output: &mut state.serial_output,
            memory: &mut vm.memory,
            cow_stats: &mut state.exit_stats.cow,
            host_state: &state.host_state,
            emulated_tsc,
            tsc_frequency,
        },
        reason,
        qualification,
    )
}

/// Carry out the EPT violation action `action`: APIC and I/O APIC accesses
/// and copy-on-write faults go to `emu` (a fault for which no page can be
/// had exits to userspace with `PoolExhausted`); any other violation leaves
/// the VM as it is and exits to userspace.
pub fn emulate_ept_action<I: InstructionCounter, E: ExitEmulation>(
    vm: &mut RootVm<I>,
    action: EptViolationAction,
    qualification: u64,
    emu: &mut E,
) -> (r: ExitHandlerResult)
    ensures
        spec_emulation_frame(*old(vm), *final(vm)),
        action is Unhandled ==> *final(vm) == *old(vm),
        spec_ept_emulated(*old(emu), action, qualification, r),
{
    if let EptViolationAction::Unhandled(_) = action {
        return ExitHandlerResult::ExitToUserspace(ExitReason::EptViolation);
    }
    let emulated_tsc = vm.state.emulated_tsc;
    let tsc_frequency = vm.state.tsc_frequency;
    let state = &mut vm.state;
    let parts = EmulatedParts {
        vmcs: &mut state.vmcs,
        gprs: &mut state.gprs,
        devices: &mut state.devices,
        msr_state: &mut state.msr_state,
        kernel_gs_base: &mut state.kernel_gs_base,
        xcr0_mask: &mut state.xcr0_mask,
        serial_output: &mut state.serial_output,
        memory: &mut vm.memory,
        cow_stats: &mut state.exit_stats.cow,
        host_state: &state.host_state,
        emulated_tsc,
        tsc_frequency,
    };
    match action {
        EptViolationAction::CopyOnWrite(gpa) => match emu.handle_cow_fault(parts, gpa) {
            Some(r) => r,
            None => ExitHandlerResult::ExitToUserspace(ExitReason::PoolExhausted),
        },
        _ => emu.emulate_apic_access(parts, action, qualification),
    }
}

/// Emulation that leaves every such exit to userspace: an emulated exit
/// exits with its own reason, an APIC access and a copy-on-write fault
/// (no page is copied here) with an EPT violation. Nothing in the VM changes,
/// and a registered feedback buffer has no pages to copy ahead.
pub struct UserspaceEmulation;

impl ExitEmulation for UserspaceEmulation {
    open spec fn spec_emulates(&self, reason: ExitReason, qualification: u64, r: ExitHandlerResult) -> bool {
        r == ExitHandlerResult::ExitToUserspace(reason)
    }

    open spec fn spec_emulates_apic(
        &self,
        action: EptViolationAction,
        qualification: u64,
        r: ExitHandlerResult,
    ) -> bool {
        r == ExitHandlerResult::ExitToUserspace(ExitReason::EptViolation)
    }

    open spec fn spec_copies_page(&self, gpa: u64, r: Option<ExitHandlerResult>) -> bool {
        r == Some(ExitHandlerResult::ExitToUserspace(ExitReason::EptViolation))
    }

    open spec fn spec_pre_copies(
        &self,
        index: usize,
        buffer: FeedbackBufferInfo,
        memory: Seq<u8>,
        cow: CowStats,
        memory_after: Seq<u8>,
        cow_after: CowStats,
    ) -> bool {
        memory_after == memory && cow_after == cow
    }

    fn emulate(&mut self, parts: EmulatedParts<'_>, reason: ExitReason, qualification: u64) -> (r:
        ExitHandlerResult) {
        ExitHandlerResult::ExitToUserspace(reason)
    }

    fn emulate_apic_access(
        &mut self,
        parts: EmulatedParts<'_>,
        action: EptViolationAction,
        qualification: u64,
    ) -> (r: ExitHandlerResult) {
        ExitHandlerResult::ExitToUserspace(ExitReason::EptViolation)
    }

    fn handle_cow_fault(&mut self, parts: EmulatedParts<'_>, gpa: u64) -> (r: Option<
        ExitHandlerResult,
    >) {
        Some(ExitHandlerResult::ExitToUserspace(ExitReason::EptViolation))
    }

    fn service_host_interrupt(&mut self) {
    }

    fn pre_cow_feedback_buffer(
        &mut self,
        memory: &mut Vec<u8>,
        cow_stats: &mut CowStats,
        index: usize,
        buffer: FeedbackBufferInfo,
    ) {
    }
}

} // verus!
