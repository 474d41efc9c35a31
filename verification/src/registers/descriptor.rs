//! Descriptor table registers and the trait for reading host segment state.
use vstd::prelude::*;
use super::segment::SegmentSelector;

verus! {

/// Global Descriptor Table Register: limit and base of the GDT
/// (SGDT/LGDT layout, Intel SDM Vol 3A, Section 2.4.1).
#[derive(Clone, Copy)]
pub struct Gdtr {
    /// Number of bytes in the table minus one.
    pub limit: u16,
    /// Linear address of byte 0 of the GDT.
    pub base: u64,
}

impl Gdtr {
    pub fn new(base: u64, limit: u16) -> (r: Self)
        ensures
            r.base == base,
            r.limit == limit,
    {
        Self { base, limit }
    }
}

/// Interrupt Descriptor Table Register: limit and base of the IDT
/// (SIDT/LIDT layout, Intel SDM Vol 3A, Section 2.4.3).
#[derive(Clone, Copy)]
pub struct Idtr {
    /// Number of bytes in the table minus one.
    pub limit: u16,
    /// Linear address of byte 0 of the IDT.
    pub base: u64,
}

impl Idtr {
    pub fn new(base: u64, limit: u16) -> (r: Self)
        ensures
            r.base == base,
            r.limit == limit,
    {
        Self { base, limit }
    }
}

/// The descriptor table registers of a guest.
#[derive(Clone, Copy)]
pub struct DescriptorTableRegisters {
    pub gdtr: Gdtr,
    pub idtr: Idtr,
}

/// Reading the host's segment selectors and descriptor table registers.
///
/// Implemented by the platform (MOV from Sreg, SGDT/SIDT, STR) and by test doubles.
pub trait DescriptorTableAccess {
    /// Read the CS selector.
    fn read_cs(&self) -> SegmentSelector;

    /// Read the SS selector.
    fn read_ss(&self) -> SegmentSelector;

    /// Read the DS selector.
    fn read_ds(&self) -> SegmentSelector;

    /// Read the ES selector.
    fn read_es(&self) -> SegmentSelector;

    /// Read the FS selector.
    fn read_fs(&self) -> SegmentSelector;

    /// Read the GS selector.
    fn read_gs(&self) -> SegmentSelector;

    /// Read the TR selector.
    fn read_tr(&self) -> SegmentSelector;

    /// Read the TR base address (must point to a valid TSS).
    fn read_tr_base(&self) -> u64;

    /// Read the GDTR.
    fn read_gdtr(&self) -> Gdtr;

    /// Read the IDTR.
    fn read_idtr(&self) -> Idtr;
}

} // verus!
