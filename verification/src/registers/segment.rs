//! Segment registers (Intel SDM Vol 3A, Section 3.4).
use vstd::prelude::*;

verus! {

/// Segment selector - visible part of a segment register.
#[derive(Clone, Copy)]
pub struct SegmentSelector(u16);

impl View for SegmentSelector {
    type V = u16;

    closed spec fn view(&self) -> u16 {
        self.0
    }
}

impl SegmentSelector {
    pub fn new(value: u16) -> (r: Self)
        ensures
            r@ == value,
    {
        Self(value)
    }

    pub fn bits(&self) -> (r: u16)
        ensures
            r == self@,
    {
        self.0
    }
}

/// Segment access rights in the VMCS guest-state format (Intel SDM Vol 3C, Table 26-2).
#[derive(Clone, Copy)]
pub struct SegmentAccessRights(u32);

impl View for SegmentAccessRights {
    type V = u32;

    closed spec fn view(&self) -> u32 {
        self.0
    }
}

impl SegmentAccessRights {
    pub fn new(value: u32) -> (r: Self)
        ensures
            r@ == value,
    {
        Self(value)
    }

    pub fn bits(&self) -> (r: u32)
        ensures
            r == self@,
    {
        self.0
    }
}

/// Complete segment register state including the hidden descriptor cache.
#[derive(Clone, Copy)]
pub struct SegmentRegister {
    /// Visible part - the segment selector.
    pub selector: SegmentSelector,
    /// Padding to align `access_rights`.
    pub _pad: u16,
    /// Hidden part - access rights from the descriptor.
    pub access_rights: SegmentAccessRights,
    /// Hidden part - segment limit (in bytes).
    pub limit: u32,
    /// Hidden part - segment base address.
    pub base: u64,
}

impl SegmentRegister {
    pub fn new(selector: u16, access_rights: u32, limit: u32, base: u64) -> (r: Self)
        ensures
            r.selector@ == selector,
            r._pad == 0,
            r.access_rights@ == access_rights,
            r.limit == limit,
            r.base == base,
    {
        Self {
            selector: SegmentSelector::new(selector),
            _pad: 0,
            access_rights: SegmentAccessRights::new(access_rights),
            limit,
            base,
        }
    }
}

/// All segment registers of a guest.
#[derive(Clone, Copy)]
pub struct SegmentRegisters {
    /// Code segment.
    pub cs: SegmentRegister,
    /// Data segment.
    pub ds: SegmentRegister,
    /// Extra segment.
    pub es: SegmentRegister,
    /// FS (base used in 64-bit mode).
    pub fs: SegmentRegister,
    /// GS (base used in 64-bit mode).
    pub gs: SegmentRegister,
    /// Stack segment.
    pub ss: SegmentRegister,
    /// Task register.
    pub tr: SegmentRegister,
    /// Local descriptor table register.
    pub ldtr: SegmentRegister,
}

} // verus!
