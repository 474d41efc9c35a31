use std::cell::RefCell;
use std::collections::HashMap;

use bedrock_vmx::registers::cr::{Cr0, Cr4};
use bedrock_vmx::registers::msr;
use bedrock_vmx::registers::msr_defs::{MsrAccess, MsrError};
use bedrock_vmx::traits::capabilities::{
    adjust_controls, capabilities_from_msrs, configure_feature_control, decode_vmx_basic,
    feature_control_update, fix_cr0, fix_cr4, read_capabilities, vmx_load_basic_info,
    CapabilityMsrs, VmxCapabilities, VmxConfigureFeatureControlError, FEAT_CTL_LOCKED,
    FEAT_CTL_VMX_ENABLED_OUTSIDE_SMX, REQUESTED_CPU_BASED,
};
use bedrock_vmx::traits::controls::{cpu_based, secondary_exec};

struct FakeMsrs {
    values: RefCell<HashMap<u32, u64>>,
    writable: bool,
}

impl FakeMsrs {
    fn new(pairs: &[(u32, u64)], writable: bool) -> Self {
        FakeMsrs { values: RefCell::new(pairs.iter().copied().collect()), writable }
    }
}

impl MsrAccess for FakeMsrs {
    fn read_msr(&self, address: u32) -> Result<u64, MsrError> {
        self.values.borrow().get(&address).copied().ok_or(MsrError::InvalidAddress)
    }

    fn write_msr(&self, address: u32, value: u64) -> Result<(), MsrError> {
        if !self.writable {
            return Err(MsrError::InvalidAddress);
        }
        self.values.borrow_mut().insert(address, value);
        Ok(())
    }
}

#[test]
fn adjust_controls_sets_required_and_clears_forbidden_bits() {
    // must-be-one: bit 1; may-be-one: bits 0..=3
    let msr_value: u64 = (0b1111u64 << 32) | 0b0010;
    assert_eq!(adjust_controls(msr_value, 0b1_0101), 0b0111);
    assert_eq!(adjust_controls(0, 0xFFFF_FFFF), 0);
    assert_eq!(adjust_controls(0xFFFF_FFFF_0000_0000, 0x1234), 0x1234);
}

#[test]
fn fixed_cr_bits_are_applied() {
    let mut caps = VmxCapabilities::zero();
    caps.cr0_fixed0 = 0x8000_0021;
    caps.cr0_fixed1 = 0xFFFF_FFFF;
    caps.cr4_fixed0 = 0x2000;
    caps.cr4_fixed1 = 0x3FFF;
    assert_eq!(fix_cr0(&Cr0::new(0x1_0000_0002), &caps).bits(), 0x8000_0023);
    assert_eq!(fix_cr4(&Cr4::new(0x4020), &caps).bits(), 0x2020);
}

#[test]
fn vmx_basic_fields_are_decoded() {
    let v: u64 = 0x8000_0004 | (0x1000u64 << 32) | (1u64 << 50) | (1u64 << 55);
    let b = decode_vmx_basic(v);
    assert_eq!(b.vmcs_revision_id, 4);
    assert_eq!(b.vmcs_size, 0x1000);
    assert!(b.mem_type_wb);
    assert!(!b.io_exit_info);
    assert!(b.vmx_flex_controls);
}

#[test]
fn vmx_basic_read_from_msr() {
    let m = FakeMsrs::new(&[(msr::IA32_VMX_BASIC, 7 | (0x400u64 << 32))], false);
    let b = vmx_load_basic_info(&m).unwrap();
    assert_eq!(b.vmcs_revision_id, 7);
    assert_eq!(b.vmcs_size, 0x400);
    let none = FakeMsrs::new(&[], false);
    assert!(vmx_load_basic_info(&none).is_err());
}

#[test]
fn feature_control_cases() {
    let both = FEAT_CTL_LOCKED | FEAT_CTL_VMX_ENABLED_OUTSIDE_SMX;
    assert!(matches!(feature_control_update(both), Ok(None)));
    assert!(matches!(
        feature_control_update(FEAT_CTL_LOCKED),
        Err(VmxConfigureFeatureControlError::Locked)
    ));
    assert!(matches!(feature_control_update(0x100), Ok(Some(v)) if v == 0x100 | both));
}

#[test]
fn configure_feature_control_writes_and_locks() {
    let m = FakeMsrs::new(&[(msr::IA32_FEATURE_CONTROL, 0)], true);
    assert!(configure_feature_control(&m).is_ok());
    assert_eq!(m.read_msr(msr::IA32_FEATURE_CONTROL).unwrap(), 0b101);

    let locked = FakeMsrs::new(&[(msr::IA32_FEATURE_CONTROL, 1)], true);
    assert!(matches!(
        configure_feature_control(&locked),
        Err(VmxConfigureFeatureControlError::Locked)
    ));

    let unreadable = FakeMsrs::new(&[], true);
    assert!(matches!(
        configure_feature_control(&unreadable),
        Err(VmxConfigureFeatureControlError::MsrReadFailed(_))
    ));

    let readonly = FakeMsrs::new(&[(msr::IA32_FEATURE_CONTROL, 0)], false);
    assert!(matches!(
        configure_feature_control(&readonly),
        Err(VmxConfigureFeatureControlError::MsrWriteFailed(_))
    ));
}

#[test]
fn capabilities_follow_the_msrs() {
    let all_allowed = 0xFFFF_FFFF_0000_0000u64;
    let m = CapabilityMsrs {
        pinbased: Some(all_allowed),
        procbased: Some(all_allowed),
        procbased2: Some(all_allowed),
        exit: Some(all_allowed),
        entry: None,
        cr0_fixed0: Some(1),
        cr0_fixed1: None,
        cr4_fixed0: Some(2),
        cr4_fixed1: Some(3),
    };
    let caps = capabilities_from_msrs(&m);
    assert_eq!(caps.cpu_based_exec_ctrl, REQUESTED_CPU_BASED);
    assert!(caps.cpu_based_exec_ctrl & cpu_based::ACTIVATE_SECONDARY_CONTROLS != 0);
    assert!(caps.has_ept);
    assert!(caps.has_vpid);
    assert_eq!(caps.vmentry_ctrl, 0);
    assert_eq!(caps.cr0_fixed0, 1);
    assert_eq!(caps.cr0_fixed1, 0);
    assert_eq!(caps.cr4_fixed1, 3);
    assert!(!caps.supports_precise_pebs_exits());

    // Without the secondary-controls bit the secondary MSR is ignored.
    let no_secondary = CapabilityMsrs {
        procbased: Some(((!cpu_based::ACTIVATE_SECONDARY_CONTROLS) as u64) << 32),
        ..m
    };
    let caps = capabilities_from_msrs(&no_secondary);
    assert_eq!(caps.cpu_based_exec_ctrl2, 0);
    assert!(!caps.has_ept);
}

#[test]
fn read_capabilities_matches_derivation() {
    let all_allowed = 0xFFFF_FFFF_0000_0000u64;
    let fake = FakeMsrs::new(
        &[
            (msr::IA32_VMX_PROCBASED_CTLS, all_allowed),
            (msr::IA32_VMX_PROCBASED_CTLS2, (secondary_exec::ENABLE_EPT as u64) << 32),
        ],
        false,
    );
    let caps = read_capabilities(&fake);
    assert!(caps.has_ept);
    assert!(!caps.has_vpid);
    assert_eq!(caps.pin_based_exec_ctrl, 0);
}

#[test]
fn precise_pebs_needs_baseline_and_format_four() {
    let mut caps = VmxCapabilities::zero();
    caps.pebs_baseline = true;
    caps.pebs_format = 4;
    assert!(caps.supports_precise_pebs_exits());
    caps.pebs_format = 3;
    assert!(!caps.supports_precise_pebs_exits());
}
