use std::cell::RefCell;
use std::collections::HashMap;

use bedrock_vmx::host::{HostState, SyscallMsrs};
use bedrock_vmx::registers::cr::{Cr0, Cr3, Cr4, CrAccess, CrError};
use bedrock_vmx::registers::descriptor::{DescriptorTableAccess, Gdtr, Idtr};
use bedrock_vmx::registers::msr;
use bedrock_vmx::registers::msr_defs::{MsrAccess, MsrError};
use bedrock_vmx::registers::segment::SegmentSelector;

struct FakeCpu {
    msrs: RefCell<HashMap<u32, u64>>,
}

impl FakeCpu {
    fn new(pairs: &[(u32, u64)]) -> Self {
        FakeCpu { msrs: RefCell::new(pairs.iter().copied().collect()) }
    }
}

impl MsrAccess for FakeCpu {
    fn read_msr(&self, address: u32) -> Result<u64, MsrError> {
        self.msrs.borrow().get(&address).copied().ok_or(MsrError::InvalidAddress)
    }

    fn write_msr(&self, address: u32, value: u64) -> Result<(), MsrError> {
        self.msrs.borrow_mut().insert(address, value);
        Ok(())
    }
}

impl CrAccess for FakeCpu {
    fn read_cr0(&self) -> Result<Cr0, CrError> {
        Ok(Cr0::new(0x8005_0033))
    }

    fn read_cr3(&self) -> Result<Cr3, CrError> {
        Err(CrError::InvalidRegister)
    }

    fn read_cr4(&self) -> Result<Cr4, CrError> {
        Ok(Cr4::new(0x2020))
    }

    fn write_cr4(&self, _value: &Cr4) -> Result<(), CrError> {
        Ok(())
    }

    fn set_vmxe(&self) -> Result<(), CrError> {
        Ok(())
    }

    fn clear_vmxe(&self) -> Result<(), CrError> {
        Ok(())
    }
}

impl DescriptorTableAccess for FakeCpu {
    fn read_cs(&self) -> SegmentSelector {
        SegmentSelector::new(0x10)
    }

    fn read_ss(&self) -> SegmentSelector {
        SegmentSelector::new(0x18)
    }

    fn read_ds(&self) -> SegmentSelector {
        SegmentSelector::new(0)
    }

    fn read_es(&self) -> SegmentSelector {
        SegmentSelector::new(0)
    }

    fn read_fs(&self) -> SegmentSelector {
        SegmentSelector::new(0)
    }

    fn read_gs(&self) -> SegmentSelector {
        SegmentSelector::new(0)
    }

    fn read_tr(&self) -> SegmentSelector {
        SegmentSelector::new(0x40)
    }

    fn read_tr_base(&self) -> u64 {
        0xFFFF_8000_0000_4000
    }

    fn read_gdtr(&self) -> Gdtr {
        Gdtr::new(0xFFFF_8000_0000_1000, 0x7F)
    }

    fn read_idtr(&self) -> Idtr {
        Idtr::new(0xFFFF_8000_0000_2000, 0xFFF)
    }
}

#[test]
fn host_state_capture_reads_the_cpu() {
    let cpu = FakeCpu::new(&[
        (msr::IA32_FS_BASE, 0x7000),
        (msr::IA32_SYSENTER_CS, 0x1_0000_0008),
        (msr::IA32_EFER, 0xD01),
        (msr::IA32_LSTAR, 0xFFFF_FFFF_8100_0000),
    ]);
    let h = HostState::capture(&cpu, &cpu, &cpu, 0xAAAA, 0xBBBB);
    assert_eq!(h.cr0, 0x8005_0033);
    assert_eq!(h.cr3, 0);
    assert_eq!(h.cr4, 0x2020);
    assert_eq!(h.cs_selector, 0x10);
    assert_eq!(h.ss_selector, 0x18);
    assert_eq!(h.tr_selector, 0x40);
    assert_eq!(h.tr_base, 0xFFFF_8000_0000_4000);
    assert_eq!(h.gdtr_base, 0xFFFF_8000_0000_1000);
    assert_eq!(h.idtr_base, 0xFFFF_8000_0000_2000);
    assert_eq!(h.fs_base, 0x7000);
    assert_eq!(h.gs_base, 0);
    assert_eq!(h.sysenter_cs, 8);
    assert_eq!(h.efer, 0xD01);
    assert_eq!(h.syscall_msrs.lstar.bits(), 0xFFFF_FFFF_8100_0000);
    assert_eq!(h.syscall_msrs.star.bits(), 0);
    assert_eq!(h.rip, 0xAAAA);
    assert_eq!(h.rsp, 0xBBBB);
}

#[test]
fn syscall_msrs_load_writes_what_capture_read() {
    let cpu = FakeCpu::new(&[
        (msr::IA32_STAR, 1),
        (msr::IA32_LSTAR, 2),
        (msr::IA32_CSTAR, 3),
        (msr::IA32_FMASK, 4),
    ]);
    let s = SyscallMsrs::capture(&cpu);
    let other = FakeCpu::new(&[]);
    s.load(&other);
    assert_eq!(other.read_msr(msr::IA32_STAR), Ok(1));
    assert_eq!(other.read_msr(msr::IA32_LSTAR), Ok(2));
    assert_eq!(other.read_msr(msr::IA32_CSTAR), Ok(3));
    assert_eq!(other.read_msr(msr::IA32_FMASK), Ok(4));
    let z = SyscallMsrs::from_reads(Err(MsrError::InvalidAddress), Ok(9), Ok(0), Err(MsrError::InvalidAddress));
    assert_eq!(z.star.bits(), 0);
    assert_eq!(z.lstar.bits(), 9);
}

#[test]
fn zero_host_state() {
    let h = HostState::zero();
    assert_eq!(h.cr0, 0);
    assert_eq!(h.efer, 0);
    assert_eq!(h.syscall_msrs.fmask.bits(), 0);
}
