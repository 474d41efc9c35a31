//! SYSCALL-related MSR values (Intel SDM Vol 4 and Vol 2B, SYSCALL/SYSRET).
use vstd::prelude::*;

verus! {

/// IA32_EFER - Extended Feature Enable Register.
#[derive(Clone, Copy, Debug)]
pub struct Efer(u64);

impl View for Efer {
    type V = u64;

    closed spec fn view(&self) -> u64 {
        self.0
    }
}

impl Efer {
    pub fn new(value: u64) -> (r: Self)
        ensures
            r@ == value,
    {
        Self(value)
    }

    pub fn bits(&self) -> (r: u64)
        ensures
            r == self@,
    {
        self.0
    }
}

/// IA32_STAR - SYSCALL/SYSRET segment selectors (bits 47:32 SYSCALL CS,
/// bits 63:48 SYSRET CS base).
#[derive(Clone, Copy, Debug, Default)]
pub struct Star(u64);

impl View for Star {
    type V = u64;

    closed spec fn view(&self) -> u64 {
        self.0
    }
}

impl Star {
    pub fn new(value: u64) -> (r: Self)
        ensures
            r@ == value,
    {
        Self(value)
    }

    pub fn bits(&self) -> (r: u64)
        ensures
            r == self@,
    {
        self.0
    }
}

/// IA32_LSTAR - target RIP of SYSCALL in 64-bit mode.
#[derive(Clone, Copy, Debug, Default)]
pub struct Lstar(u64);

impl View for Lstar {
    type V = u64;

    closed spec fn view(&self) -> u64 {
        self.0
    }
}

impl Lstar {
    pub fn new(value: u64) -> (r: Self)
        ensures
            r@ == value,
    {
        Self(value)
    }

    pub fn bits(&self) -> (r: u64)
        ensures
            r == self@,
    {
        self.0
    }
}

/// IA32_CSTAR - compatibility-mode SYSCALL target (unused by SYSCALL).
#[derive(Clone, Copy, Debug, Default)]
pub struct Cstar(u64);

impl View for Cstar {
    type V = u64;

    closed spec fn view(&self) -> u64 {
        self.0
    }
}

impl Cstar {
    pub fn new(value: u64) -> (r: Self)
        ensures
            r@ == value,
    {
        Self(value)
    }

    pub fn bits(&self) -> (r: u64)
        ensures
            r == self@,
    {
        self.0
    }
}

/// IA32_FMASK - on SYSCALL, `RFLAGS := RFLAGS AND NOT(IA32_FMASK)`.
#[derive(Clone, Copy, Debug, Default)]
pub struct Fmask(u64);

impl View for Fmask {
    type V = u64;

    closed spec fn view(&self) -> u64 {
        self.0
    }
}

impl Fmask {
    pub fn new(value: u64) -> (r: Self)
        ensures
            r@ == value,
    {
        Self(value)
    }

    pub fn bits(&self) -> (r: u64)
        ensures
            r == self@,
    {
        self.0
    }
}

/// Branch Trace Storage Unavailable (bit 11, read-only).
pub const MISC_ENABLE_BTS_UNAVAILABLE: u64 = 0x800;

/// PEBS Unavailable (bit 12, read-only).
pub const MISC_ENABLE_PEBS_UNAVAILABLE: u64 = 0x1000;

/// MWAIT Enable (bit 18).
pub const MISC_ENABLE_MWAIT_ENABLE: u64 = 0x40000;

/// IA32_MISC_ENABLE - miscellaneous enable bits (Intel SDM Vol 4, Table 2-2).
#[derive(Clone, Copy, Debug)]
pub struct MiscEnable(u64);

impl View for MiscEnable {
    type V = u64;

    closed spec fn view(&self) -> u64 {
        self.0
    }
}

/// The guest-visible IA32_MISC_ENABLE derived from the host's value:
/// BTS and PEBS reported unavailable, MWAIT disabled.
pub open spec fn spec_misc_enable_for_guest(host_value: u64) -> u64 {
    (host_value | (MISC_ENABLE_BTS_UNAVAILABLE | MISC_ENABLE_PEBS_UNAVAILABLE))
        & !MISC_ENABLE_MWAIT_ENABLE
}

impl MiscEnable {
    pub fn bits(&self) -> (r: u64)
        ensures
            r == self@,
    {
        self.0
    }

    fn set(&mut self, flag: u64)
        ensures
            final(self)@ == old(self)@ | flag,
    {
        self.0 = self.0 | flag;
    }

    fn clear(&mut self, flag: u64)
        ensures
            final(self)@ == old(self)@ & !flag,
    {
        self.0 = self.0 & !flag;
    }

    /// Guest-safe value from the host value: sets BTS/PEBS unavailable and
    /// clears MWAIT enable.
    pub fn for_guest(host_value: u64) -> (r: Self)
        ensures
            r@ == spec_misc_enable_for_guest(host_value),
    {
        let mut val = Self(host_value);
        val.set(MISC_ENABLE_BTS_UNAVAILABLE | MISC_ENABLE_PEBS_UNAVAILABLE);
        val.clear(MISC_ENABLE_MWAIT_ENABLE);
        val
    }
}

/// The extended control registers of a guest.
#[derive(Clone, Copy)]
pub struct ExtendedControlRegisters {
    pub efer: Efer,
}

} // verus!
