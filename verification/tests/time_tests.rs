use bedrock_vmx::exits::helpers::ExitHandlerResult;
use bedrock_vmx::exits::time::{handle_idle, handle_rdpmc, handle_rdtsc, handle_rdtscp};
use bedrock_vmx::fields::{VmcsField32, VmcsFieldNatural};
use bedrock_vmx::host::HostState;
use bedrock_vmx::traits::instruction_counter::NullInstructionCounter;
use bedrock_vmx::vm_state::vm::VmState;
use bedrock_vmx::vmcs::MockVmcs;

fn state_with_rip(len: u32, rip: u64) -> Box<VmState<NullInstructionCounter>> {
    let mut vmcs = MockVmcs::new();
    vmcs.set_field32(VmcsField32::VmExitInstructionLen, len);
    vmcs.set_field_natural(VmcsFieldNatural::GuestRip, rip);
    Box::new(VmState::new(vmcs, NullInstructionCounter, HostState::zero()))
}

#[test]
fn test_rdtsc_handler() {
    let mut state = state_with_rip(2, 0x1000);
    state.emulated_tsc = 0x1234_5678_9ABC_DEF0;

    let result = handle_rdtsc(&mut state);
    assert!(matches!(result, ExitHandlerResult::Continue));

    assert_eq!(state.gprs.rax, 0x9ABC_DEF0);
    assert_eq!(state.gprs.rdx, 0x1234_5678);
    assert_eq!(state.vmcs.get_field_natural(VmcsFieldNatural::GuestRip), Some(0x1002));
}

#[test]
fn test_rdtscp_handler() {
    let mut state = state_with_rip(3, 0x1000);
    state.emulated_tsc = 0xAABB_CCDD_EEFF_0011;
    state.msr_state.tsc_aux = 0x42;

    let result = handle_rdtscp(&mut state);
    assert!(matches!(result, ExitHandlerResult::Continue));

    assert_eq!(state.gprs.rax, 0xEEFF_0011);
    assert_eq!(state.gprs.rdx, 0xAABB_CCDD);
    assert_eq!(state.gprs.rcx, 0x42);
    assert_eq!(state.vmcs.get_field_natural(VmcsFieldNatural::GuestRip), Some(0x1003));
}

#[test]
fn test_rdpmc_handler() {
    let mut state = state_with_rip(2, 0x1000);
    state.gprs.rcx = 0;

    let result = handle_rdpmc(&mut state);
    assert!(matches!(result, ExitHandlerResult::Continue));

    assert_eq!(state.gprs.rax, 0);
    assert_eq!(state.gprs.rdx, 0);
    assert_eq!(state.vmcs.get_field_natural(VmcsFieldNatural::GuestRip), Some(0x1002));
}

#[test]
fn rdtscp_keeps_only_low_half_of_tsc_aux() {
    let mut state = state_with_rip(3, 0x2000);
    state.emulated_tsc = 5;
    state.msr_state.tsc_aux = 0xFFFF_FFFF_0000_0007;
    let _ = handle_rdtscp(&mut state);
    assert_eq!(state.gprs.rcx, 7);
    assert_eq!(state.gprs.rax, 5);
    assert_eq!(state.gprs.rdx, 0);
}

#[test]
fn rdtsc_without_instruction_length_reports_error() {
    let mut vmcs = MockVmcs::new();
    vmcs.set_field_natural(VmcsFieldNatural::GuestRip, 0x1000);
    let mut state = Box::new(VmState::new(vmcs, NullInstructionCounter, HostState::zero()));
    let result = handle_rdtsc(&mut state);
    assert!(matches!(result, ExitHandlerResult::Error(_)));
    assert_eq!(state.vmcs.get_field_natural(VmcsFieldNatural::GuestRip), Some(0x1000));
}

#[test]
fn idle_jumps_to_timer_deadline() {
    let mut state = state_with_rip(1, 0x1000);
    state.emulated_tsc = 1_000;
    state.tsc_offset = 10;
    state.devices.apic.timer_deadline = 5_000;
    let result = handle_idle(&mut state);
    assert!(matches!(result, ExitHandlerResult::Continue));
    assert_eq!(state.emulated_tsc, 5_000);
    assert_eq!(state.tsc_offset, 10 + 4_000);
    assert_eq!(state.vmcs.get_field_natural(VmcsFieldNatural::GuestRip), Some(0x1001));
}

#[test]
fn idle_stops_at_stop_tsc_before_deadline() {
    let mut state = state_with_rip(1, 0x1000);
    state.emulated_tsc = 1_000;
    state.devices.apic.timer_deadline = 5_000;
    state.stop_at_tsc = Some(3_000);
    let _ = handle_idle(&mut state);
    assert_eq!(state.emulated_tsc, 3_000);
    assert_eq!(state.tsc_offset, 2_000);
}

#[test]
fn idle_without_timer_keeps_time() {
    let mut state = state_with_rip(1, 0x1000);
    state.emulated_tsc = 1_000;
    let _ = handle_idle(&mut state);
    assert_eq!(state.emulated_tsc, 1_000);
    assert_eq!(state.tsc_offset, 0);
}
