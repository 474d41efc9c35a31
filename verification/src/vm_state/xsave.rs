//! Guest and host XSAVE areas: the 4 KB pages that XSAVE/XRSTOR use to save
//! and restore the extended (x87/SSE/AVX) state around VM entry and exit.
use vstd::prelude::*;
use crate::registers::xcr0;

verus! {

/// Size of an XSAVE area.
pub const XSAVE_AREA_SIZE: usize = 4096;

/// Offset of the x87 FPU control word (FCW) in the legacy region.
pub const XSAVE_FCW_OFFSET: usize = 0;

/// Offset of MXCSR in the legacy region.
pub const XSAVE_MXCSR_OFFSET: usize = 24;

/// Offset of XSTATE_BV in the XSAVE header.
pub const XSAVE_XSTATE_BV_OFFSET: usize = 512;

/// FCW after FINIT: every exception masked, round to nearest, 64-bit precision.
pub const FCW_DEFAULT: u16 = 0x037F;

/// MXCSR reset value: every exception masked, round to nearest.
pub const MXCSR_DEFAULT: u32 = 0x1F80;

/// The guest's initial XSAVE area: zero except FCW = 0x037F, MXCSR = 0x1F80
/// and XSTATE_BV = x87|SSE|AVX, all little-endian.
pub open spec fn spec_guest_initial_xsave() -> Seq<u8> {
    Seq::new(
        XSAVE_AREA_SIZE as nat,
        |i: int|
            if i == 0 {
                0x7Fu8
            } else if i == 1 {
                0x03u8
            } else if i == 24 {
                0x80u8
            } else if i == 25 {
                0x1Fu8
            } else if i == 512 {
                0x07u8
            } else {
                0u8
            },
    )
}

/// An XSAVE area.
pub struct XsaveArea {
    bytes: Vec<u8>,
}

impl XsaveArea {
    /// The bytes of the area.
    pub closed spec fn view(&self) -> Seq<u8> {
        self.bytes@
    }

    /// An all-zero area.
    pub fn zeroed() -> (r: Self)
        ensures
            r.view() == Seq::new(XSAVE_AREA_SIZE as nat, |i: int| 0u8),
    {
        let mut bytes: Vec<u8> = Vec::new();
        let mut i: usize = 0;
        while i < XSAVE_AREA_SIZE
            invariant
                i <= XSAVE_AREA_SIZE,
                bytes@ == Seq::new(i as nat, |j: int| 0u8),
            decreases XSAVE_AREA_SIZE - i,
        {
            bytes.push(0);
            i += 1;
            assert(bytes@ =~= Seq::new(i as nat, |j: int| 0u8));
        }
        XsaveArea { bytes }
    }

    /// The guest's initial area, so that every guest starts with the same
    /// FPU and SSE state (see `spec_guest_initial_xsave`).
    pub fn guest_initial() -> (r: Self)
        ensures
            r.view() == spec_guest_initial_xsave(),
    {
        let mut area = Self::zeroed();
        let fcw = FCW_DEFAULT;
        let mxcsr = MXCSR_DEFAULT;
        let bv = xcr0::SSE_AVX;
        assert(0x1u64 | 0x2u64 | 0x4u64 == 7u64) by (bit_vector);
        assert(bv == 7);
        assert((fcw & 0xFF) as u8 == 0x7F && (fcw >> 8) as u8 == 0x03) by (bit_vector)
            requires
                fcw == 0x037Fu16,
        ;
        assert((mxcsr & 0xFF) as u8 == 0x80 && ((mxcsr >> 8) & 0xFF) as u8 == 0x1F && ((mxcsr
            >> 16) & 0xFF) as u8 == 0 && (mxcsr >> 24) as u8 == 0) by (bit_vector)
            requires
                mxcsr == 0x1F80u32,
        ;
        assert((bv & 0xFF) as u8 == 7) by (bit_vector)
            requires
                bv == 7u64,
        ;
        area.bytes.set(XSAVE_FCW_OFFSET, (fcw & 0xFF) as u8);
        area.bytes.set(XSAVE_FCW_OFFSET + 1, (fcw >> 8) as u8);
        area.bytes.set(XSAVE_MXCSR_OFFSET, (mxcsr & 0xFF) as u8);
        area.bytes.set(XSAVE_MXCSR_OFFSET + 1, ((mxcsr >> 8) & 0xFF) as u8);
        area.bytes.set(XSAVE_MXCSR_OFFSET + 2, ((mxcsr >> 16) & 0xFF) as u8);
        area.bytes.set(XSAVE_MXCSR_OFFSET + 3, (mxcsr >> 24) as u8);
        area.bytes.set(XSAVE_XSTATE_BV_OFFSET, (bv & 0xFF) as u8);
        assert(area.bytes@ =~= spec_guest_initial_xsave());
        area
    }

    /// A copy of this area.
    pub fn duplicate(&self) -> (r: Self)
        ensures
            r.view() == self.view(),
    {
        let mut bytes: Vec<u8> = Vec::new();
        let mut i: usize = 0;
        while i < self.bytes.len()
            invariant
                i <= self.bytes@.len(),
                bytes@ == self.bytes@.subrange(0, i as int),
            decreases self.bytes@.len() - i,
        {
            bytes.push(self.bytes[i]);
            i += 1;
            assert(bytes@ =~= self.bytes@.subrange(0, i as int));
        }
        assert(bytes@ =~= self.bytes@);
        XsaveArea { bytes }
    }

    /// The bytes of the area.
    pub fn as_bytes(&self) -> (r: &[u8])
        ensures
            r@ == self.view(),
    {
        self.bytes.as_slice()
    }
}

} // verus!
