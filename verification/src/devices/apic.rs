//! Local APIC and I/O APIC state read by interrupt delivery.
use vstd::prelude::*;
use crate::logging::hash::{StateHash, Xxh64Hasher};

verus! {

/// Number of I/O APIC redirection-table pins.
pub const IOAPIC_NUM_PINS: usize = 24;

/// Local APIC register state used by timer and interrupt delivery.
#[derive(Clone, Copy)]
pub struct ApicState {
    /// Spurious-interrupt vector register (bit 8: APIC software enable).
    pub svr: u32,
    /// LVT timer register (bits 7:0 vector, 16 mask, 17 periodic).
    pub lvt_timer: u32,
    /// Timer initial count.
    pub timer_initial: u32,
    /// Timer divide configuration register.
    pub timer_divide: u32,
    /// Emulated TSC at which the timer fires; 0 when disarmed.
    pub timer_deadline: u64,
    /// Interrupt request register: bit `v % 32` of word `v / 32` for vector `v`.
    pub irr: [u32; 8],
    /// In-service register, same layout as `irr`.
    pub isr: [u32; 8],
}

impl ApicState {
    /// All registers zero: software-disabled, timer disarmed, nothing pending.
    pub fn new() -> (r: Self)
        ensures
            r.svr == 0 && r.lvt_timer == 0 && r.timer_initial == 0 && r.timer_divide == 0,
            r.timer_deadline == 0,
            forall|i: int| 0 <= i < 8 ==> r.irr@[i] == 0 && r.isr@[i] == 0,
    {
        ApicState {
            svr: 0,
            lvt_timer: 0,
            timer_initial: 0,
            timer_divide: 0,
            timer_deadline: 0,
            irr: [0u32; 8],
            isr: [0u32; 8],
        }
    }
}

/// I/O APIC state used by IRQ delivery.
#[derive(Clone, Copy)]
pub struct IoapicState {
    /// Redirection table (bits 7:0 vector, bit 16 mask).
    pub redtbl: [u64; 24],
}

impl IoapicState {
    /// All redirection entries zero.
    pub fn new() -> (r: Self)
        ensures
            forall|i: int| 0 <= i < 24 ==> r.redtbl@[i] == 0,
    {
        IoapicState { redtbl: [0u64; 24] }
    }
}

impl StateHash for ApicState {
    fn state_hash(&self) -> (r: u64)
        ensures
            r == 0,
    {
        let mut h = Xxh64Hasher::new();
        h.write_u32(self.svr);
        h.write_u32(self.lvt_timer);
        h.write_u32(self.timer_initial);
        h.write_u32(self.timer_divide);
        h.write_u64(self.timer_deadline);
        let mut i: usize = 0;
        while i < 8
            invariant
                i <= 8,
            decreases 8 - i,
        {
            h.write_u32(self.irr[i]);
            h.write_u32(self.isr[i]);
            i += 1;
        }
        h.finish()
    }
}

impl StateHash for IoapicState {
    fn state_hash(&self) -> (r: u64)
        ensures
            r == 0,
    {
        let mut h = Xxh64Hasher::new();
        let mut i: usize = 0;
        while i < IOAPIC_NUM_PINS
            invariant
                i <= IOAPIC_NUM_PINS,
            decreases IOAPIC_NUM_PINS - i,
        {
            h.write_u64(self.redtbl[i]);
            i += 1;
        }
        h.finish()
    }
}

} // verus!
