use bedrock_vmx::fields::{VmcsField16, VmcsField32, VmcsField64};
use bedrock_vmx::traits::controls::secondary_exec;
use bedrock_vmx::traits::vpid::{reset_vpid_counter, VpidAllocator};
use bedrock_vmx::vmcs_setup::fork_vmcs;
use bedrock_vmx::traits::tlb::NoTlbFlush;
use bedrock_vmx::host::HostState;
use bedrock_vmx::traits::instruction_counter::NullInstructionCounter;
use bedrock_vmx::vm::root::{MemoryError, RootVm};
use bedrock_vmx::vm_state::vm::VmState;
use bedrock_vmx::vmcs::MockVmcs;

fn create_root_vm(size: usize) -> Box<RootVm<NullInstructionCounter>> {
    let state = VmState::new(MockVmcs::new(), NullInstructionCounter, HostState::zero());
    Box::new(RootVm::new(state, vec![0u8; size]))
}

#[test]
fn test_rootvm_gpr_access() {
    let mut vm = create_root_vm(0x1000);

    vm.state.gprs.rax = 0x1234;
    vm.state.gprs.rbx = 0x5678;

    assert_eq!(vm.state.gprs.rax, 0x1234);
    assert_eq!(vm.state.gprs.rbx, 0x5678);
}

#[test]
fn test_rootvm_vmcs_access() {
    let mut vm = create_root_vm(0x1000);

    let vmcs_ref = &mut vm.state.vmcs;
    vmcs_ref.set_field32(VmcsField32::VmExitReason, 10);
    assert_eq!(vmcs_ref.get_field32(VmcsField32::VmExitReason), Some(10));
}

#[test]
fn test_rootvm_guest_memory_read_write() {
    let mut vm = create_root_vm(0x10000);

    let data = [0xDE, 0xAD, 0xBE, 0xEF];
    let result = vm.write_guest_memory(0x1000, &data);
    assert!(result.is_ok());

    let result = vm.read_guest_memory(0x1000, 4);
    assert!(result.is_ok());
    assert_eq!(result.unwrap(), data.to_vec());
}

#[test]
fn test_rootvm_guest_memory_out_of_range() {
    let mut vm = create_root_vm(0x1000);

    let data = [0u8; 4];
    let result = vm.write_guest_memory(0x1000, &data);
    assert!(matches!(result, Err(MemoryError::OutOfRange)));

    let result = vm.read_guest_memory(0xFFF, 4);
    assert!(matches!(result, Err(MemoryError::OutOfRange)));
}

#[test]
fn test_rootvm_guest_memory_boundary() {
    let mut vm = create_root_vm(0x1000);

    let data = [0x11, 0x22, 0x33, 0x44];
    let result = vm.write_guest_memory(0xFFC, &data);
    assert!(result.is_ok());

    let result = vm.read_guest_memory(0xFFC, 4);
    assert!(result.is_ok());
    assert_eq!(result.unwrap(), data.to_vec());
}

#[test]
fn test_forkedvm_children_count_tracking() {
    let mut root = create_root_vm(0x1000);

    assert_eq!(root.children_count(), 0);
    root.add_child();
    assert_eq!(root.children_count(), 1);
    root.add_child();
    assert_eq!(root.children_count(), 2);
    root.remove_child();
    assert_eq!(root.children_count(), 1);
    root.remove_child();
    assert_eq!(root.children_count(), 0);
}

#[test]
fn test_forkedvm_state_copied_from_parent() {
    let mut root = create_root_vm(0x1000);

    root.state.gprs.rax = 0x1234567890ABCDEF;
    root.state.gprs.rbx = 0xFEDCBA0987654321;
    root.state.emulated_tsc = 12345678;

    let forked: Box<VmState<NullInstructionCounter>> =
        Box::new(VmState::new_for_fork(MockVmcs::new(), &root.state, NullInstructionCounter));

    assert_eq!(forked.gprs.rax, 0x1234567890ABCDEF);
    assert_eq!(forked.gprs.rbx, 0xFEDCBA0987654321);
    assert_eq!(forked.emulated_tsc, 12345678);
}

#[test]
fn test_forkedvm_state_isolation() {
    let mut root = create_root_vm(0x1000);

    root.state.gprs.rax = 100;

    let mut forked: Box<VmState<NullInstructionCounter>> =
        Box::new(VmState::new_for_fork(MockVmcs::new(), &root.state, NullInstructionCounter));

    forked.gprs.rax = 200;

    assert_eq!(root.state.gprs.rax, 100);
    assert_eq!(forked.gprs.rax, 200);
}

#[test]
fn rootvm_new_has_zeroed_registers_and_memory_size() {
    let vm = create_root_vm(0x10000);
    assert_eq!(vm.state.gprs.rax, 0);
    assert_eq!(vm.state.gprs.rcx, 0);
    assert_eq!(vm.memory_size(), 0x10000);
    assert_eq!(vm.state.last_instruction_count, 0);
    assert!(vm.can_run());
}

#[test]
fn read_after_write_leaves_other_bytes() {
    let mut vm = create_root_vm(0x20);
    vm.write_guest_memory(4, &[1, 2, 3]).unwrap();
    assert_eq!(vm.read_guest_memory(0, 8).unwrap(), vec![0, 0, 0, 0, 1, 2, 3, 0]);
}

#[test]
fn overflowing_range_is_out_of_range() {
    let mut vm = create_root_vm(0x20);
    assert!(matches!(vm.write_guest_memory(u64::MAX, &[1]), Err(MemoryError::OutOfRange)));
    assert!(matches!(vm.read_guest_memory(u64::MAX, 2), Err(MemoryError::OutOfRange)));
    assert_eq!(vm.read_guest_memory(0x20, 0).unwrap(), Vec::<u8>::new());
}

#[test]
fn read_page_requires_whole_page() {
    let vm = create_root_vm(0x2000);
    assert_eq!(vm.read_page(0x1234), Some(0x1000));
    assert_eq!(vm.read_page(0x2000), None);
    let small = create_root_vm(0x800);
    assert_eq!(small.read_page(0), None);
}

#[test]
fn a_vm_with_children_cannot_run() {
    let mut root = create_root_vm(0x10);
    root.add_child();
    assert!(!root.can_run());
}

#[test]
fn fork_continues_parent_time_from_zero_count() {
    let mut root = create_root_vm(0x10);
    root.state.emulated_tsc = 500;
    let forked: Box<VmState<NullInstructionCounter>> =
        Box::new(VmState::new_for_fork(MockVmcs::new(), &root.state, NullInstructionCounter));
    assert_eq!(forked.last_instruction_count, 0);
    assert_eq!(forked.tsc_offset, 500);
    assert_eq!(forked.vpid, 0);
}

#[test]
fn forked_vmcs_gets_its_own_ept_bitmap_and_vpid() {
    let mut vpids = VpidAllocator::new();
    reset_vpid_counter(&mut vpids);
    let mut parent = MockVmcs::new();
    parent.set_field32(VmcsField32::SecondaryProcBasedVmExecControls, secondary_exec::ENABLE_VPID);
    parent.write16(VmcsField16::VirtualProcessorId, 9).unwrap();
    parent.write64(VmcsField64::EptPointer, 0x1000).unwrap();
    parent.set_field32(VmcsField32::VmxPreemptionTimerValue, 5);
    let (child, vpid) = fork_vmcs(&parent, 0x2000, 0x3000, &mut vpids, &mut NoTlbFlush);
    assert_eq!(vpid, 1);
    assert_eq!(child.read16(VmcsField16::VirtualProcessorId), Ok(1));
    assert_eq!(child.read64(VmcsField64::EptPointer), Ok(0x2000));
    assert_eq!(child.read64(VmcsField64::MsrBitmapAddr), Ok(0x3000));
    assert_eq!(child.get_field32(VmcsField32::VmxPreemptionTimerValue), Some(0x100000));
    assert_eq!(parent.read64(VmcsField64::EptPointer), Ok(0x1000));

    let plain = MockVmcs::new();
    let (_, none) = fork_vmcs(&plain, 0x2000, 0x3000, &mut vpids, &mut NoTlbFlush);
    assert_eq!(none, 0);
}

#[test]
fn guest_xsave_area_starts_with_default_fpu_state() {
    let vm = create_root_vm(0x10);
    let x = vm.state.guest_xsave.as_bytes();
    assert_eq!(x.len(), 4096);
    assert_eq!(&x[0..2], &[0x7F, 0x03]);
    assert_eq!(&x[24..28], &[0x80, 0x1F, 0, 0]);
    assert_eq!(&x[512..520], &[7, 0, 0, 0, 0, 0, 0, 0]);
    assert!(vm.state.host_xsave.as_bytes().iter().all(|b| *b == 0));
}
