//! MSR bitmap: which guest RDMSR/WRMSR accesses cause VM exits.
//!
//! Layout (Intel SDM Vol 3C, Section 25.6.9), 4 KB:
//! - offset 0: read bitmap for MSRs 0x0000_0000-0x0000_1FFF
//! - offset 1024: read bitmap for MSRs 0xC000_0000-0xC000_1FFF
//! - offset 2048: write bitmap for the low range
//! - offset 3072: write bitmap for the high range
//!
//! A set bit intercepts the access; MSRs outside both ranges always exit.
use vstd::prelude::*;

verus! {

/// Size of the MSR bitmap page.
pub const MSR_BITMAP_SIZE: usize = 4096;

/// Index of an MSR within its bitmap range, with the offsets of its read and
/// write bitmaps; `None` for MSRs outside both ranges.
pub open spec fn spec_msr_bitmap_slot(msr: u32) -> Option<(int, int, int)> {
    if msr < 0x2000 {
        Some((0, 2048, msr as int))
    } else if 0xC000_0000 <= msr < 0xC000_2000 {
        Some((1024, 3072, msr - 0xC000_0000))
    } else {
        None
    }
}

/// Whether bit `index` of the bitmap starting at byte `base` is set.
pub open spec fn spec_bit_set(bytes: Seq<u8>, base: int, index: int) -> bool {
    (bytes[base + index / 8] >> ((index % 8) as u8)) & 1 == 1
}

/// The 4 KB MSR bitmap.
pub struct MsrBitmap {
    bytes: Vec<u8>,
}

impl MsrBitmap {
    #[verifier::type_invariant]
    spec fn inv(self) -> bool {
        self.bytes@.len() == MSR_BITMAP_SIZE
    }

    /// The bytes of the bitmap page.
    pub closed spec fn view(&self) -> Seq<u8> {
        self.bytes@
    }

    /// Whether a guest RDMSR of `msr` causes a VM exit.
    pub open spec fn intercepts_read(&self, msr: u32) -> bool {
        match spec_msr_bitmap_slot(msr) {
            Some((rb, _, i)) => spec_bit_set(self.view(), rb, i),
            None => true,
        }
    }

    /// Whether a guest WRMSR of `msr` causes a VM exit.
    pub open spec fn intercepts_write(&self, msr: u32) -> bool {
        match spec_msr_bitmap_slot(msr) {
            Some((_, wb, i)) => spec_bit_set(self.view(), wb, i),
            None => true,
        }
    }

    /// A bitmap that intercepts every MSR access (all bits set).
    pub fn intercept_all() -> (r: Self)
        ensures
            r.view().len() == MSR_BITMAP_SIZE,
            forall|i: int| 0 <= i < MSR_BITMAP_SIZE ==> r.view()[i] == 0xFF,
    {
        let mut bytes: Vec<u8> = Vec::new();
        let mut i: usize = 0;
        while i < MSR_BITMAP_SIZE
            invariant
                i <= MSR_BITMAP_SIZE,
                bytes@.len() == i,
                forall|j: int| 0 <= j < i ==> bytes@[j] == 0xFF,
            decreases MSR_BITMAP_SIZE - i,
        {
            bytes.push(0xFF);
            i += 1;
        }
        MsrBitmap { bytes }
    }

    /// A copy of this bitmap.
    pub fn duplicate(&self) -> (r: Self)
        ensures
            r.view() == self.view(),
    {
        proof {
            use_type_invariant(self);
        }
        let mut bytes: Vec<u8> = Vec::new();
        let mut i: usize = 0;
        while i < MSR_BITMAP_SIZE
            invariant
                i <= MSR_BITMAP_SIZE,
                self.bytes@.len() == MSR_BITMAP_SIZE,
                bytes@ == self.bytes@.subrange(0, i as int),
            decreases MSR_BITMAP_SIZE - i,
        {
            bytes.push(self.bytes[i]);
            i += 1;
            assert(bytes@ =~= self.bytes@.subrange(0, i as int));
        }
        assert(bytes@ =~= self.bytes@);
        MsrBitmap { bytes }
    }

    /// Let guest reads and writes of `msr` pass through without a VM exit.
    /// MSRs outside both bitmap ranges always exit; for them nothing changes.
    pub fn clear_intercept(&mut self, msr: u32)
        ensures
            final(self).view().len() == MSR_BITMAP_SIZE,
            final(self).view() == match spec_msr_bitmap_slot(msr) {
                Some((rb, wb, i)) => old(self).view().update(
                    rb + i / 8,
                    old(self).view()[rb + i / 8] & !(1u8 << ((i % 8) as u8)),
                ).update(wb + i / 8, old(self).view()[wb + i / 8] & !(1u8 << ((i % 8) as u8))),
                None => old(self).view(),
            },
    {
        proof {
            use_type_invariant(&*self);
        }
        msr_bitmap_clear_intercept(&mut self.bytes, msr);
    }
}

/// Clear the read and write intercept bits of `msr` in a 4 KB bitmap.
fn msr_bitmap_clear_intercept(bitmap: &mut Vec<u8>, msr: u32)
    requires
        old(bitmap)@.len() == MSR_BITMAP_SIZE,
    ensures
        final(bitmap)@ == match spec_msr_bitmap_slot(msr) {
            Some((rb, wb, i)) => old(bitmap)@.update(
                rb + i / 8,
                old(bitmap)@[rb + i / 8] & !(1u8 << ((i % 8) as u8)),
            ).update(wb + i / 8, old(bitmap)@[wb + i / 8] & !(1u8 << ((i % 8) as u8))),
            None => old(bitmap)@,
        },
    no_unwind
{
    let (read_base, write_base, index): (usize, usize, usize) = if msr < 0x2000 {
        (0, 2048, msr as usize)
    } else if 0xC000_0000 <= msr && msr < 0xC000_2000 {
        (1024, 3072, (msr - 0xC000_0000) as usize)
    } else {
        return ;
    };
    let byte_offset = index / 8;
    let bit_mask = !(1u8 << ((index % 8) as u8));
    let r = bitmap[read_base + byte_offset] & bit_mask;
    bitmap[read_base + byte_offset] = r;
    let w = bitmap[write_base + byte_offset] & bit_mask;
    bitmap[write_base + byte_offset] = w;
}

/// After clearing the intercepts of `msr`, neither reads nor writes of it
/// exit (when it lies in a bitmap range), and every other MSR is intercepted
/// exactly as before.
pub proof fn lemma_clear_intercept_effect(before: MsrBitmap, after: MsrBitmap, msr: u32, other: u32)
    requires
        before.view().len() == MSR_BITMAP_SIZE,
        after.view() == match spec_msr_bitmap_slot(msr) {
            Some((rb, wb, i)) => before.view().update(
                rb + i / 8,
                before.view()[rb + i / 8] & !(1u8 << ((i % 8) as u8)),
            ).update(wb + i / 8, before.view()[wb + i / 8] & !(1u8 << ((i % 8) as u8))),
            None => before.view(),
        },
    ensures
        spec_msr_bitmap_slot(msr) is Some ==> !after.intercepts_read(msr) && !after.intercepts_write(
            msr,
        ),
        other != msr ==> after.intercepts_read(other) == before.intercepts_read(other)
            && after.intercepts_write(other) == before.intercepts_write(other),
{
    if let Some((rb, wb, i)) = spec_msr_bitmap_slot(msr) {
        let k = (i % 8) as u8;
        assert(k < 8);
        assert forall|b: u8| #[trigger] ((b & !(1u8 << k)) >> k) & 1 != 1 by {
            assert(((b & !(1u8 << k)) >> k) & 1 != 1) by (bit_vector)
                requires
                    k < 8,
            ;
        }
        if let Some((rb2, wb2, j)) = spec_msr_bitmap_slot(other) {
            if other != msr {
                let k2 = (j % 8) as u8;
                assert(k2 < 8);
                if j / 8 == i / 8 && rb2 == rb {
                    assert(i != j);
                    assert(k != k2);
                    assert forall|b: u8| #[trigger] ((b & !(1u8 << k)) >> k2) & 1 == (b >> k2) & 1 by {
                        assert(((b & !(1u8 << k)) >> k2) & 1 == (b >> k2) & 1) by (bit_vector)
                            requires
                                k < 8,
                                k2 < 8,
                                k != k2,
                        ;
                    }
                }
            }
        }
    }
}

} // verus!
