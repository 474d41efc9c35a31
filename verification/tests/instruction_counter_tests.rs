use bedrock_vmx::traits::instruction_counter::{
    InstructionCounter, MockInstructionCounter, NullInstructionCounter,
};

#[test]
fn test_null_instruction_counter() {
    let mut counter = NullInstructionCounter;
    assert!(!counter.is_configured());
    counter.enable();
    counter.disable();
    assert_eq!(counter.read(), 0);
}

#[test]
fn test_null_counter_is_copy() {
    let counter = NullInstructionCounter;
    let _copy = counter;
    let _another = counter;
}

#[test]
fn test_mock_instruction_counter() {
    let mut counter = MockInstructionCounter::new(1000);

    assert!(counter.is_configured());
    assert_eq!(counter.read(), 1000);
    assert!(!counter.enabled);

    counter.enable();
    assert!(counter.enabled);
    assert_eq!(counter.enable_count, 1);

    counter.enable();
    assert_eq!(counter.enable_count, 1);

    counter.disable();
    assert!(!counter.enabled);
    assert_eq!(counter.disable_count, 1);

    counter.disable();
    assert_eq!(counter.disable_count, 1);

    counter.count = 5000;
    assert_eq!(counter.read(), 5000);
}
