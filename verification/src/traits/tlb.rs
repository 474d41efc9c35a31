//! Invalidating the translations cached for a VPID (INVVPID).
use vstd::prelude::*;

verus! {

/// Flushing cached guest translations. Implemented by the platform
/// (single-context INVVPID) and by test doubles.
pub trait TlbControl: Sized {
    /// Whether `after` is a possible state of this controller after the
    /// translations tagged with `vpid` were flushed (by default any state).
    open spec fn spec_flushed(&self, vpid: u16, after: Self) -> bool {
        true
    }

    /// Flush every translation tagged with `vpid`.
    fn invvpid_single_context(&mut self, vpid: u16)
        ensures
            old(self).spec_flushed(vpid, *final(self)),
    ;
}

/// For machines without VPIDs: there is nothing to flush.
pub struct NoTlbFlush;

impl TlbControl for NoTlbFlush {
    fn invvpid_single_context(&mut self, vpid: u16) {
    }
}

} // verus!
