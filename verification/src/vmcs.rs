//! Software VMCS: a field store with the read/write semantics of VMREAD and
//! VMWRITE.
//!
//! Every field is addressed by its encoding. A field that has never been
//! written reads back as `VmcsReadError::InvalidField`; a write always
//! succeeds and is seen by every later read of the same field. The exit
//! handlers of this crate run against this store.
use std::collections::HashMap;
use vstd::prelude::*;
use crate::fields::{VmcsField16, VmcsField32, VmcsField64, VmcsFieldNatural};

verus! {

broadcast use vstd::std_specs::hash::group_hash_axioms;

/// Error from a VMCS read.
#[derive(Debug, Clone, Copy, PartialEq, Eq, Structural)]
pub enum VmcsReadError {
    /// The field is not present in this VMCS.
    InvalidField,
}

/// Error from a VMCS write.
#[derive(Debug, Clone, Copy, PartialEq, Eq, Structural)]
pub enum VmcsWriteError {
    /// The field cannot be written.
    InvalidField,
}

/// Abstract contents of a VMCS: one map per field width, keyed by field
/// encoding.
#[verifier::ext_equal]
pub struct VmcsView {
    pub w16: Map<u32, u16>,
    pub w32: Map<u32, u32>,
    pub w64: Map<u32, u64>,
    pub nat: Map<u32, u64>,
}

impl VmcsView {
    /// No field present.
    pub open spec fn empty() -> Self {
        VmcsView { w16: Map::empty(), w32: Map::empty(), w64: Map::empty(), nat: Map::empty() }
    }

    /// VMREAD of a 16-bit field.
    pub open spec fn read16(self, field: VmcsField16) -> Result<u16, VmcsReadError> {
        spec_lookup(self.w16, field.spec_encoding())
    }

    /// VMREAD of a 32-bit field.
    pub open spec fn read32(self, field: VmcsField32) -> Result<u32, VmcsReadError> {
        spec_lookup(self.w32, field.spec_encoding())
    }

    /// VMREAD of a 64-bit field.
    pub open spec fn read64(self, field: VmcsField64) -> Result<u64, VmcsReadError> {
        spec_lookup(self.w64, field.spec_encoding())
    }

    /// VMREAD of a natural-width field.
    pub open spec fn read_natural(self, field: VmcsFieldNatural) -> Result<u64, VmcsReadError> {
        spec_lookup(self.nat, field.spec_encoding())
    }

    /// The contents after a VMWRITE of a 16-bit field.
    pub open spec fn set16(self, field: VmcsField16, value: u16) -> Self {
        VmcsView { w16: self.w16.insert(field.spec_encoding(), value), ..self }
    }

    /// The contents after a VMWRITE of a 32-bit field.
    pub open spec fn set32(self, field: VmcsField32, value: u32) -> Self {
        VmcsView { w32: self.w32.insert(field.spec_encoding(), value), ..self }
    }

    /// The contents after a VMWRITE of a 64-bit field.
    pub open spec fn set64(self, field: VmcsField64, value: u64) -> Self {
        VmcsView { w64: self.w64.insert(field.spec_encoding(), value), ..self }
    }

    /// The contents after a VMWRITE of a natural-width field.
    pub open spec fn set_natural(self, field: VmcsFieldNatural, value: u64) -> Self {
        VmcsView { nat: self.nat.insert(field.spec_encoding(), value), ..self }
    }
}

/// VMCS backed by one map per field width, keyed by field encoding.
pub struct MockVmcs {
    fields16: HashMap<u32, u16>,
    fields32: HashMap<u32, u32>,
    fields64: HashMap<u32, u64>,
    fields_natural: HashMap<u32, u64>,
}

/// What a read of `key` from `m` returns.
pub open spec fn spec_lookup<T>(m: Map<u32, T>, key: u32) -> Result<T, VmcsReadError> {
    if m.contains_key(key) {
        Ok(m[key])
    } else {
        Err(VmcsReadError::InvalidField)
    }
}

impl View for MockVmcs {
    type V = VmcsView;

    open spec fn view(&self) -> VmcsView {
        VmcsView {
            w16: self.map16(),
            w32: self.map32(),
            w64: self.map64(),
            nat: self.map_natural(),
        }
    }
}

impl MockVmcs {
    /// Contents of the 16-bit fields, by encoding.
    pub closed spec fn map16(&self) -> Map<u32, u16> {
        self.fields16@
    }

    /// Contents of the 32-bit fields, by encoding.
    pub closed spec fn map32(&self) -> Map<u32, u32> {
        self.fields32@
    }

    /// Contents of the 64-bit fields, by encoding.
    pub closed spec fn map64(&self) -> Map<u32, u64> {
        self.fields64@
    }

    /// Contents of the natural-width fields, by encoding.
    pub closed spec fn map_natural(&self) -> Map<u32, u64> {
        self.fields_natural@
    }

    pub open spec fn spec_read16(&self, field: VmcsField16) -> Result<u16, VmcsReadError> {
        self@.read16(field)
    }

    pub open spec fn spec_read32(&self, field: VmcsField32) -> Result<u32, VmcsReadError> {
        self@.read32(field)
    }

    pub open spec fn spec_read64(&self, field: VmcsField64) -> Result<u64, VmcsReadError> {
        self@.read64(field)
    }

    pub open spec fn spec_read_natural(&self, field: VmcsFieldNatural) -> Result<
        u64,
        VmcsReadError,
    > {
        self@.read_natural(field)
    }

    /// An empty VMCS: every read fails until the field is written.
    pub fn new() -> (r: Self)
        ensures
            r@ == VmcsView::empty(),
    {
        Self {
            fields16: HashMap::new(),
            fields32: HashMap::new(),
            fields64: HashMap::new(),
            fields_natural: HashMap::new(),
        }
    }

    /// VMREAD of a 16-bit field.
    pub fn read16(&self, field: VmcsField16) -> (r: Result<u16, VmcsReadError>)
        ensures
            r == self.spec_read16(field),
    {
        match self.fields16.get(&field.encoding()) {
            Some(v) => Ok(*v),
            None => Err(VmcsReadError::InvalidField),
        }
    }

    /// VMREAD of a 32-bit field.
    pub fn read32(&self, field: VmcsField32) -> (r: Result<u32, VmcsReadError>)
        ensures
            r == self.spec_read32(field),
    {
        match self.fields32.get(&field.encoding()) {
            Some(v) => Ok(*v),
            None => Err(VmcsReadError::InvalidField),
        }
    }

    /// VMREAD of a 64-bit field.
    pub fn read64(&self, field: VmcsField64) -> (r: Result<u64, VmcsReadError>)
        ensures
            r == self.spec_read64(field),
    {
        match self.fields64.get(&field.encoding()) {
            Some(v) => Ok(*v),
            None => Err(VmcsReadError::InvalidField),
        }
    }

    /// VMREAD of a natural-width field.
    pub fn read_natural(&self, field: VmcsFieldNatural) -> (r: Result<u64, VmcsReadError>)
        ensures
            r == self.spec_read_natural(field),
    {
        match self.fields_natural.get(&field.encoding()) {
            Some(v) => Ok(*v),
            None => Err(VmcsReadError::InvalidField),
        }
    }

    /// VMWRITE of a 16-bit field.
    pub fn write16(&mut self, field: VmcsField16, value: u16) -> (r: Result<(), VmcsWriteError>)
        ensures
            r is Ok,
            final(self)@ == old(self)@.set16(field, value),
    {
        self.fields16.insert(field.encoding(), value);
        Ok(())
    }

    /// VMWRITE of a 32-bit field.
    pub fn write32(&mut self, field: VmcsField32, value: u32) -> (r: Result<(), VmcsWriteError>)
        ensures
            r is Ok,
            final(self)@ == old(self)@.set32(field, value),
    {
        self.fields32.insert(field.encoding(), value);
        Ok(())
    }

    /// VMWRITE of a 64-bit field.
    pub fn write64(&mut self, field: VmcsField64, value: u64) -> (r: Result<(), VmcsWriteError>)
        ensures
            r is Ok,
            final(self)@ == old(self)@.set64(field, value),
    {
        self.fields64.insert(field.encoding(), value);
        Ok(())
    }

    /// VMWRITE of a natural-width field.
    pub fn write_natural(&mut self, field: VmcsFieldNatural, value: u64) -> (r: Result<
        (),
        VmcsWriteError,
    >)
        ensures
            r is Ok,
            final(self)@ == old(self)@.set_natural(field, value),
    {
        self.fields_natural.insert(field.encoding(), value);
        Ok(())
    }

    /// A copy of this VMCS with every field as it is here.
    pub fn duplicate(&self) -> (r: Self)
        ensures
            r@ == self@,
    {
        MockVmcs {
            fields16: self.fields16.clone(),
            fields32: self.fields32.clone(),
            fields64: self.fields64.clone(),
            fields_natural: self.fields_natural.clone(),
        }
    }

    /// Set a 32-bit field directly (test setup).
    pub fn set_field32(&mut self, field: VmcsField32, value: u32)
        ensures
            final(self)@ == old(self)@.set32(field, value),
    {
        self.fields32.insert(field.encoding(), value);
    }

    /// Set a natural-width field directly (test setup).
    pub fn set_field_natural(&mut self, field: VmcsFieldNatural, value: u64)
        ensures
            final(self)@ == old(self)@.set_natural(field, value),
    {
        self.fields_natural.insert(field.encoding(), value);
    }

    /// Get a 32-bit field directly, `None` if never written.
    pub fn get_field32(&self, field: VmcsField32) -> (r: Option<u32>)
        ensures
            r == match self.spec_read32(field) {
                Ok(v) => Some(v),
                Err(_) => None::<u32>,
            },
    {
        match self.fields32.get(&field.encoding()) {
            Some(v) => Some(*v),
            None => None,
        }
    }

    /// Get a natural-width field directly, `None` if never written.
    pub fn get_field_natural(&self, field: VmcsFieldNatural) -> (r: Option<u64>)
        ensures
            r == match self.spec_read_natural(field) {
                Ok(v) => Some(v),
                Err(_) => None::<u64>,
            },
    {
        match self.fields_natural.get(&field.encoding()) {
            Some(v) => Some(*v),
            None => None,
        }
    }
}


/// A VMCS read gives back the last value written to the field; writing one
/// field leaves every other field (of any width) as it was.
pub proof fn lemma_vmcs_read_after_write(
    v: VmcsView,
    field: VmcsFieldNatural,
    other: VmcsFieldNatural,
    value: u64,
    field16: VmcsField16,
    field32: VmcsField32,
    field64: VmcsField64,
)
    ensures
        v.set_natural(field, value).read_natural(field) == Ok::<u64, VmcsReadError>(value),
        field.spec_encoding() != other.spec_encoding() ==> v.set_natural(field, value).read_natural(
            other,
        ) == v.read_natural(other),
        v.set_natural(field, value).read16(field16) == v.read16(field16),
        v.set_natural(field, value).read32(field32) == v.read32(field32),
        v.set_natural(field, value).read64(field64) == v.read64(field64),
{
}

} // verus!
