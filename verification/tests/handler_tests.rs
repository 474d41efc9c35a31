use bedrock_vmx::handler::{BedrockHandler, VmRef};

#[test]
fn test_handler_new_succeeds() {
    let handler = BedrockHandler::<64>::new();
    assert!(handler.can_create_vm());
}

#[test]
fn test_handler_alloc_vm_id() {
    let mut handler = BedrockHandler::<64>::new();

    assert_eq!(handler.alloc_vm_id(), Some(1));
    assert_eq!(handler.alloc_vm_id(), Some(2));
    assert_eq!(handler.alloc_vm_id(), Some(3));
}

#[test]
fn test_handler_vm_tracking() {
    let mut handler = BedrockHandler::<64>::new();

    let vm1 = VmRef::new(0x1000);
    let vm2 = VmRef::new(0x2000);

    handler.add_vm(vm1, 1);
    handler.add_vm(vm2, 2);

    handler.remove_vm(vm1);
    handler.remove_vm(vm2);
}

#[test]
fn test_handler_vm_limit() {
    let mut handler = BedrockHandler::<2>::new();

    assert!(handler.can_create_vm());
    assert!(handler.alloc_vm_id().is_some());

    let vm1 = VmRef::new(0x1000);
    handler.add_vm(vm1, 1);

    assert!(handler.can_create_vm());
    assert!(handler.alloc_vm_id().is_some());

    let vm2 = VmRef::new(0x2000);
    handler.add_vm(vm2, 2);

    assert!(!handler.can_create_vm());
    assert!(handler.alloc_vm_id().is_none());
}

#[test]
fn handler_finds_and_forgets_vms() {
    let mut handler = BedrockHandler::<4>::new();
    let a = VmRef::new(0x10);
    let b = VmRef::new(0x20);
    handler.add_vm(a, 7);
    handler.add_vm(b, 9);
    assert_eq!(handler.find_vm_by_id(7), Some(a));
    assert_eq!(handler.find_vm_by_id(9), Some(b));
    assert_eq!(handler.find_vm_by_id(8), None);
    handler.remove_vm(a);
    assert_eq!(handler.find_vm_by_id(7), None);
    assert_eq!(handler.find_vm_by_id(9), Some(b));
    assert_eq!(b.as_ptr(), 0x20);
}

#[test]
fn removing_a_vm_frees_a_slot() {
    let mut handler = BedrockHandler::<1>::new();
    let a = VmRef::new(0x10);
    assert_eq!(handler.alloc_vm_id(), Some(1));
    handler.add_vm(a, 1);
    assert_eq!(handler.alloc_vm_id(), None);
    handler.remove_vm(a);
    assert_eq!(handler.alloc_vm_id(), Some(2));
}
