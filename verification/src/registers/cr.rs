//! Control registers (Intel SDM Vol 3A, Section 2.5) and the trait through
//! which the host reads and writes them.
use vstd::prelude::*;

verus! {

/// CR0 - system control flags that control operating mode and states.
#[derive(Clone, Copy)]
pub struct Cr0(u64);

impl View for Cr0 {
    type V = u64;

    closed spec fn view(&self) -> u64 {
        self.0
    }
}

impl Cr0 {
    pub fn new(value: u64) -> (r: Self)
        ensures
            r@ == value,
    {
        Self(value)
    }

    pub fn bits(&self) -> (r: u64)
        ensures
            r == self@,
    {
        self.0
    }
}

/// CR2 - the page-fault linear address. All 64 bits are writable.
#[derive(Clone, Copy)]
pub struct Cr2(pub u64);

impl Cr2 {
    pub fn new(value: u64) -> (r: Self)
        ensures
            r.0 == value,
    {
        Self(value)
    }
}

/// CR3 - physical address of the paging-structure hierarchy base and flags.
#[derive(Clone, Copy)]
pub struct Cr3(u64);

impl View for Cr3 {
    type V = u64;

    closed spec fn view(&self) -> u64 {
        self.0
    }
}

impl Cr3 {
    pub fn new(value: u64) -> (r: Self)
        ensures
            r@ == value,
    {
        Self(value)
    }

    pub fn bits(&self) -> (r: u64)
        ensures
            r == self@,
    {
        self.0
    }
}

/// CR4 - flags that enable architectural extensions.
#[derive(Clone, Copy)]
pub struct Cr4(u64);

impl View for Cr4 {
    type V = u64;

    closed spec fn view(&self) -> u64 {
        self.0
    }
}

impl Cr4 {
    /// VMX Enable - enables VMX operation.
    pub const VMXE: u64 = 0x2000;

    pub fn new(value: u64) -> (r: Self)
        ensures
            r@ == value,
    {
        Self(value)
    }

    pub fn bits(&self) -> (r: u64)
        ensures
            r == self@,
    {
        self.0
    }

    /// Set the bits of `flag`.
    pub fn set(&mut self, flag: u64)
        ensures
            final(self)@ == old(self)@ | flag,
    {
        self.0 = self.0 | flag;
    }

    /// Clear the bits of `flag`.
    pub fn clear(&mut self, flag: u64)
        ensures
            final(self)@ == old(self)@ & !flag,
    {
        self.0 = self.0 & !flag;
    }
}

/// CR8 - read/write access to the local APIC's TPR. Only bits 3:0 are used.
#[derive(Clone, Copy)]
pub struct Cr8(u64);

impl View for Cr8 {
    type V = u64;

    closed spec fn view(&self) -> u64 {
        self.0
    }
}

/// Mask of the valid TPR bits of CR8.
pub const CR8_TPR_MASK: u64 = 0xF;

impl Cr8 {
    /// Keeps only the TPR bits (3:0) of `value`.
    pub fn new(value: u64) -> (r: Self)
        ensures
            r@ == value & CR8_TPR_MASK,
    {
        Self(value & CR8_TPR_MASK)
    }
}

/// The control registers of a guest.
#[derive(Clone, Copy)]
pub struct ControlRegisters {
    pub cr0: Cr0,
    pub cr2: Cr2,
    pub cr3: Cr3,
    pub cr4: Cr4,
    pub cr8: Cr8,
}

/// Error returned by control register read/write operations
/// (Intel SDM Vol 2B, MOV to/from control registers).
#[derive(Debug, Clone, Copy, PartialEq, Eq, Structural)]
pub enum CrError {
    /// Access to an invalid control register (#UD on hardware).
    InvalidRegister,
    /// The operation requires CPL 0 (#GP(0)).
    PrivilegeViolation,
    /// Invalid bit combination in CR0 (#GP(0)).
    InvalidCr0Combination,
    /// Reserved bits of CR0[63:32] set (#GP(0)).
    Cr0ReservedBits,
    /// Reserved bits of CR4 set (#GP(0)).
    Cr4ReservedBits,
    /// Reserved bits of CR8 (63:4) set (#GP(0)).
    Cr8ReservedBits,
    /// Reserved bits of CR3[63:MAXPHYADDR] set (#GP(0)).
    Cr3ReservedBits,
    /// CR8 accessed outside 64-bit mode.
    Cr8NotAvailable,
    /// CR4.PCIDE set while CR3[11:0] != 0 (#GP(0)).
    PcidEnableWithNonZeroCr3,
    /// CR0.PG cleared in 64-bit mode (#GP(0)).
    CannotDisablePaging64Bit,
    /// CR4.PAE cleared in IA-32e mode (#GP(0)).
    CannotDisablePae,
    /// Platform-specific error.
    PlatformError(u32),
}

/// Reading and writing the host's control registers (MOV to/from CRn, CPL 0).
///
/// Implemented by the platform (real hardware access) and by test doubles.
pub trait CrAccess {
    /// Read CR0.
    fn read_cr0(&self) -> Result<Cr0, CrError>;

    /// Read CR3.
    fn read_cr3(&self) -> Result<Cr3, CrError>;

    /// Read CR4.
    fn read_cr4(&self) -> Result<Cr4, CrError>;

    /// Write CR4.
    fn write_cr4(&self, value: &Cr4) -> Result<(), CrError>;

    /// Set CR4.VMXE (bit 13), keeping the kernel's CR4 shadow in sync.
    fn set_vmxe(&self) -> Result<(), CrError>;

    /// Clear CR4.VMXE (bit 13), keeping the kernel's CR4 shadow in sync.
    /// Only valid outside VMX operation.
    fn clear_vmxe(&self) -> Result<(), CrError>;
}

} // verus!
