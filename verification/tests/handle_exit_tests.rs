use bedrock_vmx::exits::ept::{handle_ept_violation, EptViolationAction};
use bedrock_vmx::exits::emulation::{EmulatedParts, ExitEmulation, UserspaceEmulation};
use bedrock_vmx::exits::handle::handle_exit;
use bedrock_vmx::exits::helpers::{ExitError, ExitHandlerResult};
use bedrock_vmx::exits::reasons::ExitReason;
use bedrock_vmx::fields::{VmcsField32, VmcsField64, VmcsFieldNatural};
use bedrock_vmx::host::HostState;
use bedrock_vmx::timing::{TscSource, ZeroTsc};
use bedrock_vmx::traits::tlb::NoTlbFlush;
use bedrock_vmx::traits::capabilities::VmxCapabilities;
use bedrock_vmx::traits::instruction_counter::NullInstructionCounter;
use bedrock_vmx::vm::root::RootVm;
use bedrock_vmx::vm_state::log_buffer::LogBuffer;
use bedrock_vmx::vm_state::stats::CowStats;
use bedrock_vmx::vm_state::vm::{FeedbackBufferInfo, LogMode, VmState};
use bedrock_vmx::vmcs::MockVmcs;

#[derive(Default)]
struct RecordingEmulator {
    emulated: Vec<(ExitReason, u64)>,
    ept: Vec<EptViolationAction>,
    cow: Vec<u64>,
    pool_empty: bool,
    interrupts: usize,
    pre_copied: Vec<usize>,
}

impl ExitEmulation for RecordingEmulator {
    fn emulate(&mut self, parts: EmulatedParts<'_>, reason: ExitReason, qualification: u64) -> ExitHandlerResult {
        self.emulated.push((reason, qualification));
        parts.gprs.rax = 0xC0FFEE;
        ExitHandlerResult::Continue
    }

    fn emulate_apic_access(
        &mut self,
        _parts: EmulatedParts<'_>,
        action: EptViolationAction,
        _qualification: u64,
    ) -> ExitHandlerResult {
        self.ept.push(action);
        ExitHandlerResult::Continue
    }

    fn handle_cow_fault(&mut self, _parts: EmulatedParts<'_>, gpa: u64) -> Option<ExitHandlerResult> {
        self.cow.push(gpa);
        if self.pool_empty {
            None
        } else {
            Some(ExitHandlerResult::Continue)
        }
    }

    fn service_host_interrupt(&mut self) {
        self.interrupts += 1;
    }

    fn pre_cow_feedback_buffer(
        &mut self,
        _memory: &mut Vec<u8>,
        _cow_stats: &mut CowStats,
        index: usize,
        _buffer: FeedbackBufferInfo,
    ) {
        self.pre_copied.push(index);
    }
}

fn vm_with_exit(basic_reason: u32, qualification: u64) -> Box<RootVm<NullInstructionCounter>> {
    let mut vmcs = MockVmcs::new();
    vmcs.set_field32(VmcsField32::VmExitReason, basic_reason);
    vmcs.set_field_natural(VmcsFieldNatural::ExitQualification, qualification);
    vmcs.set_field32(VmcsField32::VmExitInstructionLen, 2);
    vmcs.set_field_natural(VmcsFieldNatural::GuestRip, 0x1000);
    let state = VmState::new(vmcs, NullInstructionCounter, HostState::zero());
    Box::new(RootVm::new(state, vec![0u8; 0x1000]))
}

#[test]
fn cpuid_exit_goes_to_the_emulator_and_is_counted() {
    let mut vm = vm_with_exit(10, 0);
    let mut emu = RecordingEmulator::default();
    let r = handle_exit(&mut vm, &VmxCapabilities::zero(), 100, &mut emu, &mut ZeroTsc, &mut NoTlbFlush);
    assert!(matches!(r, ExitHandlerResult::Continue));
    assert_eq!(emu.emulated, vec![(ExitReason::Cpuid, 0)]);
    assert_eq!(vm.state.exit_stats.cpuid.count, 1);
    assert!(vm.state.last_exit_deterministic);
}

#[test]
fn rdtsc_exit_is_handled_here() {
    let mut vm = vm_with_exit(16, 0);
    vm.state.tsc_offset = 0x1_0000_0005;
    let mut emu = RecordingEmulator::default();
    let r = handle_exit(&mut vm, &VmxCapabilities::zero(), 100, &mut emu, &mut ZeroTsc, &mut NoTlbFlush);
    assert!(matches!(r, ExitHandlerResult::Continue));
    assert!(emu.emulated.is_empty());
    assert_eq!(vm.state.emulated_tsc, 0x1_0000_0005);
    assert_eq!(vm.state.gprs.rax, 5);
    assert_eq!(vm.state.gprs.rdx, 1);
    assert_eq!(vm.state.vmcs.get_field_natural(VmcsFieldNatural::GuestRip), Some(0x1002));
    assert_eq!(vm.state.exit_stats.rdtsc.count, 1);
}

#[test]
fn external_interrupt_is_serviced_and_not_deterministic() {
    let mut vm = vm_with_exit(1, 0);
    vm.state.tsc_offset = 50;
    vm.state.emulated_tsc = 7;
    let mut emu = RecordingEmulator::default();
    let r = handle_exit(&mut vm, &VmxCapabilities::zero(), 100, &mut emu, &mut ZeroTsc, &mut NoTlbFlush);
    assert!(matches!(r, ExitHandlerResult::Continue));
    assert_eq!(emu.interrupts, 1);
    assert!(!vm.state.last_exit_deterministic);
    assert_eq!(vm.state.emulated_tsc, 7);
    assert_eq!(vm.state.exit_stats.external_interrupt.count, 1);
}

#[test]
fn unreadable_exit_reason_is_an_error() {
    let state = VmState::new(MockVmcs::new(), NullInstructionCounter, HostState::zero());
    let mut vm = Box::new(RootVm::new(state, vec![0u8; 16]));
    let mut emu = RecordingEmulator::default();
    let r = handle_exit(&mut vm, &VmxCapabilities::zero(), 100, &mut emu, &mut ZeroTsc, &mut NoTlbFlush);
    assert!(matches!(r, ExitHandlerResult::Error(ExitError::VmcsReadError(_))));
    assert_eq!(vm.state.exit_stats.total_exit_count(), 0);
}

#[test]
fn reaching_the_stop_tsc_stops_the_vm() {
    let mut vm = vm_with_exit(10, 0);
    vm.state.tsc_offset = 1000;
    vm.state.stop_at_tsc = Some(1000);
    let mut emu = RecordingEmulator::default();
    let r = handle_exit(&mut vm, &VmxCapabilities::zero(), 100, &mut emu, &mut ZeroTsc, &mut NoTlbFlush);
    assert!(matches!(r, ExitHandlerResult::ExitToUserspace(ExitReason::StopTscReached)));
}

#[test]
fn logging_records_the_exit() {
    let mut vm = vm_with_exit(10, 0x33);
    vm.state.set_log_buffer(LogBuffer::new());
    vm.state.set_log_mode(LogMode::AllExits, 0);
    let mut emu = RecordingEmulator::default();
    let r = handle_exit(&mut vm, &VmxCapabilities::zero(), 100, &mut emu, &mut ZeroTsc, &mut NoTlbFlush);
    assert!(matches!(r, ExitHandlerResult::Continue));
    assert_eq!(vm.state.log_entry_count(), 1);
    let e = vm.state.log_buffer.as_ref().unwrap().get(0);
    assert_eq!(e.exit_reason, ExitReason::Cpuid.code());
    assert_eq!(e.exit_qualification, 0x33);
}

#[test]
fn triple_fault_is_an_error() {
    let mut vm = vm_with_exit(2, 0);
    let mut emu = RecordingEmulator::default();
    let r = handle_exit(&mut vm, &VmxCapabilities::zero(), 100, &mut emu, &mut ZeroTsc, &mut NoTlbFlush);
    assert!(matches!(r, ExitHandlerResult::Error(ExitError::TripleFault)));
}

#[test]
fn ept_violation_on_apic_page_is_emulated() {
    let mut vm = vm_with_exit(48, 0x2);
    vm.state.vmcs.write64(VmcsField64::GuestPhysicalAddr, 0xFEE0_00B0).unwrap();
    let mut emu = RecordingEmulator::default();
    let r = handle_exit(&mut vm, &VmxCapabilities::zero(), 100, &mut emu, &mut ZeroTsc, &mut NoTlbFlush);
    assert!(matches!(r, ExitHandlerResult::Continue));
    assert_eq!(emu.ept, vec![EptViolationAction::LocalApic(0xFEE0_00B0)]);
    assert!(vm.state.last_exit_deterministic);
}

#[test]
fn plain_ept_violation_exits_to_userspace() {
    let mut vm = vm_with_exit(48, 0x1);
    vm.state.vmcs.write64(VmcsField64::GuestPhysicalAddr, 0x8000).unwrap();
    let mut emu = RecordingEmulator::default();
    let r = handle_ept_violation(&mut vm, 0x1, &mut emu);
    assert!(matches!(r, ExitHandlerResult::ExitToUserspace(ExitReason::EptViolation)));
    assert!(emu.ept.is_empty());
    let r = handle_ept_violation(&mut vm, 0x2 | 0x8, &mut emu);
    assert!(matches!(r, ExitHandlerResult::Continue));
    assert_eq!(emu.cow, vec![0x8000]);
    assert!(emu.ept.is_empty());
}

#[test]
fn copy_on_write_without_a_page_exits_for_the_pool() {
    let mut vm = vm_with_exit(48, 0x2);
    vm.state.vmcs.write64(VmcsField64::GuestPhysicalAddr, 0x8123).unwrap();
    let mut emu = RecordingEmulator { pool_empty: true, ..Default::default() };
    let r = handle_ept_violation(&mut vm, 0x2, &mut emu);
    assert!(matches!(r, ExitHandlerResult::ExitToUserspace(ExitReason::PoolExhausted)));
    assert_eq!(emu.cow, vec![0x8123]);
}

#[test]
fn emulator_sees_the_exit_and_changes_only_its_parts() {
    let mut vm = vm_with_exit(10, 0x77);
    vm.state.tsc_offset = 9;
    let mut emu = RecordingEmulator::default();
    let r = handle_exit(&mut vm, &VmxCapabilities::zero(), 100, &mut emu, &mut ZeroTsc, &mut NoTlbFlush);
    assert!(matches!(r, ExitHandlerResult::Continue));
    assert_eq!(emu.emulated, vec![(ExitReason::Cpuid, 0x77)]);
    assert_eq!(vm.state.gprs.rax, 0xC0FFEE);
    assert_eq!(vm.state.emulated_tsc, 9);
    assert_eq!(vm.state.exit_stats.total_exit_count(), 1);
}

#[test]
fn userspace_emulation_forwards_exits() {
    let mut vm = vm_with_exit(31, 0);
    let mut emu = UserspaceEmulation;
    let r = handle_exit(&mut vm, &VmxCapabilities::zero(), 100, &mut emu, &mut ZeroTsc, &mut NoTlbFlush);
    assert!(matches!(r, ExitHandlerResult::ExitToUserspace(ExitReason::MsrRead)));
    let mut vm = vm_with_exit(48, 0x2);
    vm.state.vmcs.write64(VmcsField64::GuestPhysicalAddr, 0xFEE0_0000).unwrap();
    let r = handle_exit(&mut vm, &VmxCapabilities::zero(), 100, &mut emu, &mut ZeroTsc, &mut NoTlbFlush);
    assert!(matches!(r, ExitHandlerResult::ExitToUserspace(ExitReason::EptViolation)));
}

struct SteppingTsc {
    readings: Vec<u64>,
}

impl TscSource for SteppingTsc {
    fn read_tsc(&mut self) -> u64 {
        self.readings.remove(0)
    }
}

#[test]
fn handling_cycles_are_measured_on_the_tsc_source() {
    let mut vm = vm_with_exit(10, 0);
    let mut emu = RecordingEmulator::default();
    let mut tsc = SteppingTsc { readings: vec![100, 250] };
    let r = handle_exit(&mut vm, &VmxCapabilities::zero(), 100, &mut emu, &mut tsc, &mut NoTlbFlush);
    assert!(matches!(r, ExitHandlerResult::Continue));
    assert_eq!(vm.state.exit_stats.cpuid.cycles, 150);
    assert_eq!(vm.state.exit_stats.total_exit_cycles(), 150);
}
