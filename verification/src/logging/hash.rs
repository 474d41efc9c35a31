//! Deterministic state hashing.
//!
//! Hashing of device state and guest memory is disabled in this build: the
//! hasher accepts input and always finishes with 0, so every state hash is 0.
use vstd::prelude::*;

verus! {

/// Computes a deterministic 64-bit hash of a state.
pub trait StateHash {
    /// A 64-bit hash of the current state.
    fn state_hash(&self) -> u64;
}

/// Streaming hasher. Hashing is disabled in this build: `finish` is always 0.
pub struct Xxh64Hasher {
    _dummy: (),
}

impl Xxh64Hasher {
    /// A new hasher.
    pub fn new() -> (r: Self) {
        Self { _dummy: () }
    }

    /// Hash a single byte.
    pub fn write_u8(&mut self, byte: u8)
        ensures
            *final(self) == *old(self),
    {
        self.write_bytes(&[byte]);
    }

    /// Hash a u16 (little-endian).
    pub fn write_u16(&mut self, val: u16)
        ensures
            *final(self) == *old(self),
    {
        self.write_bytes(&[(val & 0xFF) as u8, (val >> 8) as u8]);
    }

    /// Hash a u32 (little-endian).
    pub fn write_u32(&mut self, val: u32)
        ensures
            *final(self) == *old(self),
    {
        self.write_u16((val & 0xFFFF) as u16);
        self.write_u16((val >> 16) as u16);
    }

    /// Hash a u64 (little-endian).
    pub fn write_u64(&mut self, val: u64)
        ensures
            *final(self) == *old(self),
    {
        self.write_u32((val & 0xFFFF_FFFF) as u32);
        self.write_u32((val >> 32) as u32);
    }

    /// Hash a byte slice (disabled: no effect).
    pub fn write_bytes(&mut self, _bytes: &[u8])
        ensures
            *final(self) == *old(self),
    {
    }

    /// The hash of everything written so far; 0 in this build.
    pub fn finish(&self) -> (r: u64)
        ensures
            r == 0,
    {
        0
    }
}

/// Hash of guest memory; 0 in this build.
pub fn hash_guest_memory(_memory: &[u8]) -> (r: u64)
    ensures
        r == 0,
{
    0
}

} // verus!
