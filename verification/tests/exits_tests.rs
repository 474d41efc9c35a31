use bedrock_vmx::exits::emulation::{EmulatedParts, ExitEmulation, UserspaceEmulation};
use bedrock_vmx::exits::cr::{get_gpr_value, handle_cr_access, set_gpr_value};
use bedrock_vmx::exits::ept::{
    ept_violation_action, translate_gva_range_to_gpas, translate_gva_to_gpa, EptViolationAction,
};
use bedrock_vmx::exits::helpers::{advance_rip, ExitError, ExitHandlerResult};
use bedrock_vmx::exits::interrupts::{
    apic_timer_divisor, check_apic_timer, disable_interrupt_window_exiting,
    enable_interrupt_window_exiting, inject_exception, reinject_vectored_event,
};
use bedrock_vmx::exits::qualifications::{
    CrAccessQualification, EptViolationQualification, InterruptionInfo, InterruptionType,
};
use bedrock_vmx::exits::reasons::ExitReason;
use bedrock_vmx::exits::vmcall::handle_vmcall;
use bedrock_vmx::fields::{VmcsField16, VmcsField32, VmcsField64, VmcsFieldNatural};
use bedrock_vmx::host::HostState;
use bedrock_vmx::registers::gpr::GeneralPurposeRegisters;
use bedrock_vmx::traits::capabilities::VmxCapabilities;
use bedrock_vmx::traits::controls::cpu_based;
use bedrock_vmx::traits::tlb::{NoTlbFlush, TlbControl};
use bedrock_vmx::traits::instruction_counter::NullInstructionCounter;
use bedrock_vmx::vm::root::RootVm;
use bedrock_vmx::vm_state::stats::CowStats;
use bedrock_vmx::vm_state::vm::{FeedbackBufferInfo, VmState};
use bedrock_vmx::vmcs::MockVmcs;

fn state() -> Box<VmState<NullInstructionCounter>> {
    let mut vmcs = MockVmcs::new();
    vmcs.set_field32(VmcsField32::VmExitInstructionLen, 3);
    vmcs.set_field_natural(VmcsFieldNatural::GuestRip, 0x1000);
    Box::new(VmState::new(vmcs, NullInstructionCounter, HostState::zero()))
}

fn rip(s: &VmState<NullInstructionCounter>) -> Option<u64> {
    s.vmcs.get_field_natural(VmcsFieldNatural::GuestRip)
}

fn write_u64(vm: &mut RootVm<NullInstructionCounter>, at: u64, v: u64) {
    vm.write_guest_memory(at, &v.to_le_bytes()).unwrap();
}

/// Guest memory of 64 KB with 4-level tables at 0x1000..0x5000: GVA page i
/// (i < 4) maps to GPA 0x8000 + i * 0x1000; GVA 0x20_0000 is a 2 MB page at
/// GPA 0x20_0000; GVA 0x4000_0000 is a 1 GB page at GPA 0x4000_0000.
fn paged_vm() -> Box<RootVm<NullInstructionCounter>> {
    let mut vm = Box::new(RootVm::new(*state(), vec![0u8; 0x10000]));
    vm.state.vmcs.set_field_natural(VmcsFieldNatural::GuestCr3, 0x1000);
    write_u64(&mut vm, 0x1000, 0x2000 | 1);
    write_u64(&mut vm, 0x2000, 0x3000 | 1);
    write_u64(&mut vm, 0x2008, 0x4000_0000 | 0x81);
    write_u64(&mut vm, 0x3000, 0x4000 | 1);
    write_u64(&mut vm, 0x3008, 0x20_0000 | 0x81);
    for i in 0..4u64 {
        write_u64(&mut vm, 0x4000 + i * 8, (0x8000 + i * 0x1000) | 1);
    }
    vm
}

#[test]
fn gpr_encoding_round_trips() {
    let mut g = GeneralPurposeRegisters::zeroed();
    for i in 0..16u8 {
        set_gpr_value(&mut g, i, 100 + i as u64);
    }
    assert_eq!(g.rax, 100);
    assert_eq!(g.rsp, 104);
    assert_eq!(g.r15, 115);
    for i in 0..16u8 {
        assert_eq!(get_gpr_value(&g, i), 100 + i as u64);
    }
    set_gpr_value(&mut g, 16, 7);
    assert_eq!(get_gpr_value(&g, 16), 0);
}

#[test]
fn advance_rip_adds_instruction_length() {
    let mut s = state();
    assert!(advance_rip(&mut s.vmcs).is_ok());
    assert_eq!(rip(&s), Some(0x1003));
    let mut empty = MockVmcs::new();
    assert!(matches!(advance_rip(&mut empty), Err(ExitError::VmcsReadError(_))));
}

#[test]
fn mov_to_cr0_applies_fixed_bits_and_shadow() {
    let mut s = state();
    let mut caps = VmxCapabilities::zero();
    caps.cr0_fixed0 = 0x21; // PE and NE must be 1
    caps.cr0_fixed1 = 0xFFFF_FFFF; // upper half must be 0
    s.gprs.rbx = 0x1_0000_0010;
    // MOV to CR0 from RBX (register 3)
    let qual = CrAccessQualification::from_qualification(3 << 8);
    let r = handle_cr_access(&mut s, qual, &caps, &mut NoTlbFlush);
    assert!(matches!(r, ExitHandlerResult::Continue));
    assert_eq!(s.vmcs.get_field_natural(VmcsFieldNatural::GuestCr0), Some(0x31));
    assert_eq!(s.vmcs.get_field_natural(VmcsFieldNatural::Cr0ReadShadow), Some(0x1_0000_0010));
    assert_eq!(rip(&s), Some(0x1003));
}

#[test]
fn mov_to_cr3_drops_bit_63_and_mov_from_reads_it() {
    let mut s = state();
    let caps = VmxCapabilities::zero();
    s.gprs.rcx = 0x8000_0000_0000_5000;
    let r = handle_cr_access(&mut s, CrAccessQualification::from_qualification(3 | (1 << 8)), &caps, &mut NoTlbFlush);
    assert!(matches!(r, ExitHandlerResult::Continue));
    assert_eq!(s.vmcs.get_field_natural(VmcsFieldNatural::GuestCr3), Some(0x5000));
    // MOV from CR3 into RDX (register 2)
    let r = handle_cr_access(
        &mut s,
        CrAccessQualification::from_qualification(3 | (1 << 4) | (2 << 8)),
        &caps,
        &mut NoTlbFlush,
    );
    assert!(matches!(r, ExitHandlerResult::Continue));
    assert_eq!(s.gprs.rdx, 0x5000);
    assert_eq!(rip(&s), Some(0x1006));
}

#[test]
fn clts_and_lmsw_update_cr0() {
    let mut s = state();
    let caps = VmxCapabilities::zero();
    s.vmcs.set_field_natural(VmcsFieldNatural::GuestCr0, 0x8000_003B);
    let r = handle_cr_access(&mut s, CrAccessQualification::from_qualification(2 << 4), &caps, &mut NoTlbFlush);
    assert!(matches!(r, ExitHandlerResult::Continue));
    assert_eq!(s.vmcs.get_field_natural(VmcsFieldNatural::GuestCr0), Some(0x8000_0033));
    // LMSW with source data 0x000E
    let r = handle_cr_access(
        &mut s,
        CrAccessQualification::from_qualification((3 << 4) | (0xE << 16)),
        &caps,
        &mut NoTlbFlush,
    );
    assert!(matches!(r, ExitHandlerResult::Continue));
    assert_eq!(s.vmcs.get_field_natural(VmcsFieldNatural::GuestCr0), Some(0x8000_003E));
    assert_eq!(s.vmcs.get_field_natural(VmcsFieldNatural::Cr0ReadShadow), Some(0x8000_003E));
}

#[test]
fn cr8_reads_zero_and_unknown_cr_is_fatal() {
    let mut s = state();
    let caps = VmxCapabilities::zero();
    s.gprs.rax = 99;
    let r = handle_cr_access(&mut s, CrAccessQualification::from_qualification(8 | (1 << 4)), &caps, &mut NoTlbFlush);
    assert!(matches!(r, ExitHandlerResult::Continue));
    assert_eq!(s.gprs.rax, 0);
    let r = handle_cr_access(&mut s, CrAccessQualification::from_qualification(2), &caps, &mut NoTlbFlush);
    assert!(matches!(r, ExitHandlerResult::Error(ExitError::Fatal(_))));
    // a failed access does not step RIP
    assert_eq!(rip(&s), Some(0x1003));
}

#[test]
fn apic_timer_divisors() {
    let expected = [(0b0000, 2), (0b0001, 4), (0b0010, 8), (0b0011, 16), (0b1000, 32), (0b1001, 64), (0b1010, 128), (0b1011, 1)];
    for (dcr, div) in expected {
        assert_eq!(apic_timer_divisor(dcr), div);
    }
}

#[test]
fn apic_timer_fires_and_rearms_when_periodic() {
    let mut s = state();
    s.devices.apic.svr = 0x100;
    s.devices.apic.lvt_timer = 0x20000 | 0x30; // periodic, vector 0x30
    s.devices.apic.timer_initial = 10;
    s.devices.apic.timer_divide = 0b0001; // divide by 4
    s.devices.apic.timer_deadline = 1000;
    s.emulated_tsc = 1005;
    check_apic_timer(&mut s);
    assert_eq!(s.devices.apic.irr[1], 1 << 16);
    assert_eq!(s.devices.apic.timer_deadline, 1045);
    assert_eq!(s.exit_stats.apic_timer_late_inject, 1);
}

#[test]
fn masked_apic_timer_does_not_fire() {
    let mut s = state();
    s.devices.apic.svr = 0x100;
    s.devices.apic.lvt_timer = 0x10000 | 0x30;
    s.devices.apic.timer_deadline = 1000;
    s.emulated_tsc = 1000;
    check_apic_timer(&mut s);
    assert_eq!(s.devices.apic.irr, [0; 8]);
    assert_eq!(s.devices.apic.timer_deadline, 1000);
}

#[test]
fn interrupt_window_exiting_toggles() {
    let mut vmcs = MockVmcs::new();
    assert!(enable_interrupt_window_exiting(&mut vmcs).is_err());
    vmcs.set_field32(VmcsField32::PrimaryProcBasedVmExecControls, cpu_based::HLT_EXITING);
    assert!(enable_interrupt_window_exiting(&mut vmcs).is_ok());
    assert_eq!(
        vmcs.get_field32(VmcsField32::PrimaryProcBasedVmExecControls),
        Some(cpu_based::HLT_EXITING | cpu_based::INTR_WINDOW_EXITING)
    );
    assert!(disable_interrupt_window_exiting(&mut vmcs).is_ok());
    assert_eq!(
        vmcs.get_field32(VmcsField32::PrimaryProcBasedVmExecControls),
        Some(cpu_based::HLT_EXITING)
    );
}

#[test]
fn vectored_event_is_reinjected_with_error_code() {
    let mut vmcs = MockVmcs::new();
    vmcs.set_field32(VmcsField32::IdtVectoringInfo, 0x8000_0B0E);
    vmcs.set_field32(VmcsField32::IdtVectoringErrorCode, 0x2);
    assert!(matches!(reinject_vectored_event(&mut vmcs), Ok(true)));
    assert_eq!(vmcs.get_field32(VmcsField32::VmEntryInterruptionInfo), Some(0x8000_0B0E));
    assert_eq!(vmcs.get_field32(VmcsField32::VmEntryExceptionErrorCode), Some(0x2));

    let mut idle = MockVmcs::new();
    idle.set_field32(VmcsField32::IdtVectoringInfo, 0);
    assert!(matches!(reinject_vectored_event(&mut idle), Ok(false)));
    assert_eq!(idle.get_field32(VmcsField32::VmEntryInterruptionInfo), None);
}

#[test]
fn exception_injection_encodes_info() {
    let mut vmcs = MockVmcs::new();
    let info = InterruptionInfo {
        vector: 14,
        interruption_type: InterruptionType::HardwareException,
        error_code_valid: true,
        nmi_unblocking: false,
        valid: true,
    };
    assert!(inject_exception(&mut vmcs, info, Some(6)).is_ok());
    assert_eq!(vmcs.get_field32(VmcsField32::VmEntryInterruptionInfo), Some(0x8000_0B0E));
    assert_eq!(vmcs.get_field32(VmcsField32::VmEntryExceptionErrorCode), Some(6));
}

#[test]
fn ept_violation_actions() {
    let mut s = state();
    let write_to_ro = EptViolationQualification::from_qualification(0x2 | 0x8);
    s.vmcs.write64(VmcsField64::GuestPhysicalAddr, 0xFEE0_0030).unwrap();
    assert_eq!(ept_violation_action(&s, &write_to_ro), EptViolationAction::LocalApic(0xFEE0_0030));
    s.vmcs.write64(VmcsField64::GuestPhysicalAddr, 0xFEC0_0010).unwrap();
    assert_eq!(ept_violation_action(&s, &write_to_ro), EptViolationAction::IoApic(0xFEC0_0010));
    s.vmcs.write64(VmcsField64::GuestPhysicalAddr, 0x5000).unwrap();
    assert_eq!(ept_violation_action(&s, &write_to_ro), EptViolationAction::CopyOnWrite(0x5000));
    let read = EptViolationQualification::from_qualification(0x1);
    assert_eq!(ept_violation_action(&s, &read), EptViolationAction::Unhandled(0x5000));
}

#[test]
fn page_walk_translates_4k_2m_and_1g_pages() {
    let vm = paged_vm();
    assert_eq!(translate_gva_to_gpa(&vm, 0x0), Ok(0x8000));
    assert_eq!(translate_gva_to_gpa(&vm, 0x1234), Ok(0x9234));
    assert_eq!(translate_gva_to_gpa(&vm, 0x3FFF), Ok(0xBFFF));
    assert_eq!(translate_gva_to_gpa(&vm, 0x4000), Err(()));
    assert_eq!(translate_gva_to_gpa(&vm, 0x20_0123), Ok(0x20_0123));
    assert_eq!(translate_gva_to_gpa(&vm, 0x4000_0005), Ok(0x4000_0005));
    assert_eq!(translate_gva_to_gpa(&vm, 0x80_0000_0000), Err(()));
}

#[test]
fn range_translation_lists_pages_in_order() {
    let vm = paged_vm();
    let mut gpas = [0u64; 256];
    assert_eq!(translate_gva_range_to_gpas(&vm, 0x0800, 0x1000, &mut gpas), Ok(2));
    assert_eq!(&gpas[..2], &[0x8000, 0x9000]);
    assert_eq!(translate_gva_range_to_gpas(&vm, 0x0, 0, &mut gpas), Ok(0));
    assert_eq!(translate_gva_range_to_gpas(&vm, 0x3800, 0x1000, &mut gpas), Err(()));
    assert_eq!(translate_gva_range_to_gpas(&vm, u64::MAX, 2, &mut gpas), Err(()));
}

#[test]
fn feedback_buffer_registration() {
    let mut vm = paged_vm();
    vm.state.gprs.rax = 2;
    vm.state.gprs.rbx = 0x1800;
    vm.state.gprs.rcx = 0x1000;
    vm.state.gprs.rdx = 3;
    let r = handle_vmcall(&mut vm, &mut UserspaceEmulation);
    assert!(matches!(r, ExitHandlerResult::ExitToUserspace(ExitReason::VmcallFeedbackBuffer)));
    assert_eq!(vm.state.gprs.rax, 0);
    let info = vm.state.feedback_buffers[3].unwrap();
    assert_eq!(info.gva, 0x1800);
    assert_eq!(info.size, 0x1000);
    assert_eq!(info.num_pages, 2);
    assert_eq!(&info.gpas[..2], &[0x9000, 0xA000]);
    assert_eq!(rip(&vm.state), Some(0x1003));
}

/// Records each request to copy a feedback buffer's pages ahead, and marks
/// the copy in guest memory and the copy-on-write statistics.
#[derive(Default)]
struct PreCopyRecorder {
    requests: Vec<(usize, u64, u64, usize, Vec<u64>)>,
}

impl ExitEmulation for PreCopyRecorder {
    fn emulate(&mut self, _parts: EmulatedParts<'_>, reason: ExitReason, _qualification: u64) -> ExitHandlerResult {
        ExitHandlerResult::ExitToUserspace(reason)
    }

    fn emulate_apic_access(
        &mut self,
        _parts: EmulatedParts<'_>,
        _action: EptViolationAction,
        _qualification: u64,
    ) -> ExitHandlerResult {
        ExitHandlerResult::ExitToUserspace(ExitReason::EptViolation)
    }

    fn handle_cow_fault(&mut self, _parts: EmulatedParts<'_>, _gpa: u64) -> Option<ExitHandlerResult> {
        None
    }

    fn service_host_interrupt(&mut self) {}

    fn pre_cow_feedback_buffer(
        &mut self,
        memory: &mut Vec<u8>,
        cow_stats: &mut CowStats,
        index: usize,
        buffer: FeedbackBufferInfo,
    ) {
        let pages = buffer.gpas[..buffer.num_pages].to_vec();
        self.requests.push((index, buffer.gva, buffer.size, buffer.num_pages, pages));
        memory[0xFFFF] = 0xAA;
        cow_stats.total_faults += buffer.num_pages as u64;
    }
}

#[test]
fn registered_feedback_buffer_is_copied_ahead() {
    let mut vm = paged_vm();
    vm.state.gprs.rax = 2;
    vm.state.gprs.rbx = 0x1800;
    vm.state.gprs.rcx = 0x1000;
    vm.state.gprs.rdx = 3;
    let mut emu = PreCopyRecorder::default();
    let r = handle_vmcall(&mut vm, &mut emu);
    assert!(matches!(r, ExitHandlerResult::ExitToUserspace(ExitReason::VmcallFeedbackBuffer)));
    assert_eq!(emu.requests, vec![(3usize, 0x1800u64, 0x1000u64, 2usize, vec![0x9000u64, 0xA000])]);
    assert_eq!(vm.memory[0xFFFF], 0xAA);
    assert_eq!(vm.state.exit_stats.cow.total_faults, 2);
    assert_eq!(vm.state.gprs.rax, 0);
}

#[test]
fn refused_feedback_buffer_is_not_copied_ahead() {
    let mut vm = paged_vm();
    vm.state.gprs.rax = 2;
    vm.state.gprs.rbx = 0x5000;
    vm.state.gprs.rcx = 0x10;
    vm.state.gprs.rdx = 0;
    let mut emu = PreCopyRecorder::default();
    assert!(matches!(handle_vmcall(&mut vm, &mut emu), ExitHandlerResult::Continue));
    assert!(emu.requests.is_empty());
    assert_eq!(vm.memory[0xFFFF], 0);
    assert_eq!(vm.state.exit_stats.cow.total_faults, 0);
}

#[test]
fn range_translation_with_fewer_slots_than_pages() {
    let vm = paged_vm();
    let mut one = [7u64; 1];
    assert_eq!(translate_gva_range_to_gpas(&vm, 0x0800, 0x1000, &mut one), Err(()));
    assert_eq!(one, [7]);
    let mut three = [7u64; 3];
    assert_eq!(translate_gva_range_to_gpas(&vm, 0x0800, 0x1000, &mut three), Ok(2));
    assert_eq!(three, [0x8000, 0x9000, 7]);
}

#[test]
fn feedback_buffer_refusals() {
    for (index, size, gva) in [(16u64, 0x10u64, 0u64), (0, 0, 0), (0, 256 * 4096 + 1, 0), (0, 0x10, 0x5000)] {
        let mut vm = paged_vm();
        vm.state.gprs.rax = 2;
        vm.state.gprs.rbx = gva;
        vm.state.gprs.rcx = size;
        vm.state.gprs.rdx = index;
        let r = handle_vmcall(&mut vm, &mut UserspaceEmulation);
        assert!(matches!(r, ExitHandlerResult::Continue));
        assert_eq!(vm.state.gprs.rax, u64::MAX);
        assert!(vm.state.feedback_buffers.iter().all(|b| b.is_none()));
        assert_eq!(rip(&vm.state), Some(0x1003));
    }
}

#[test]
fn shutdown_snapshot_and_unknown_hypercalls() {
    let mut vm = paged_vm();
    vm.state.gprs.rax = 0;
    assert!(matches!(handle_vmcall(&mut vm, &mut UserspaceEmulation), ExitHandlerResult::ExitToUserspace(ExitReason::VmcallShutdown)));
    assert_eq!(rip(&vm.state), Some(0x1003));

    let mut vm = paged_vm();
    vm.state.gprs.rax = 1;
    assert!(matches!(handle_vmcall(&mut vm, &mut UserspaceEmulation), ExitHandlerResult::ExitToUserspace(ExitReason::VmcallSnapshot)));

    let mut vm = paged_vm();
    vm.state.gprs.rax = 77;
    assert!(matches!(handle_vmcall(&mut vm, &mut UserspaceEmulation), ExitHandlerResult::ExitToUserspace(ExitReason::Vmcall)));
    assert_eq!(rip(&vm.state), Some(0x1000));
    assert_eq!(vm.state.gprs.rax, 77);
}

struct RecordingTlb {
    flushed: Vec<u16>,
}

impl TlbControl for RecordingTlb {
    fn invvpid_single_context(&mut self, vpid: u16) {
        self.flushed.push(vpid);
    }
}

#[test]
fn cr3_write_flushes_the_vms_vpid() {
    let mut s = state();
    s.vmcs.write16(VmcsField16::VirtualProcessorId, 5).unwrap();
    let mut caps = VmxCapabilities::zero();
    caps.has_vpid = true;
    let mut tlb = RecordingTlb { flushed: vec![] };
    s.gprs.rcx = 0x5000;
    let r = handle_cr_access(&mut s, CrAccessQualification::from_qualification(3 | (1 << 8)), &caps, &mut tlb);
    assert!(matches!(r, ExitHandlerResult::Continue));
    assert_eq!(tlb.flushed, vec![5]);
    // CR4 writes and reads do not flush
    let _ = handle_cr_access(&mut s, CrAccessQualification::from_qualification(4 | (1 << 8)), &caps, &mut tlb);
    assert_eq!(tlb.flushed, vec![5]);
    caps.has_vpid = false;
    let _ = handle_cr_access(&mut s, CrAccessQualification::from_qualification(3 | (1 << 8)), &caps, &mut tlb);
    assert_eq!(tlb.flushed, vec![5]);
}
