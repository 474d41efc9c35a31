//! Copy-on-write page tracking for forked VMs: the pages this VM has copied,
//! keyed by page-aligned guest-physical address.
use std::collections::BTreeMap;
use vstd::prelude::*;

verus! {

broadcast use vstd::std_specs::btree::group_btree_axioms;

/// The page-aligned address of the page holding `gpa`.
pub open spec fn spec_page_of(gpa: u64) -> u64 {
    (gpa - gpa % 4096) as u64
}

/// Page-align an address.
fn page_align(gpa: u64) -> (r: u64)
    ensures
        r == spec_page_of(gpa),
{
    assert(gpa & !0xFFFu64 == gpa - gpa % 4096) by (bit_vector);
    gpa & !0xFFF
}

/// Copied pages by page-aligned guest-physical address.
pub struct CowPageMap<P> {
    pages: BTreeMap<u64, P>,
}

impl<P> CowPageMap<P> {
    /// The copied pages.
    pub closed spec fn pages(&self) -> Map<u64, P> {
        self.pages@
    }

    /// No page copied.
    pub fn new() -> (r: Self)
        ensures
            r.pages() == Map::<u64, P>::empty(),
    {
        CowPageMap { pages: BTreeMap::new() }
    }

    /// The copy of the page holding `gpa`, if there is one.
    pub fn get(&self, gpa: u64) -> (r: Option<&P>)
        ensures
            match r {
                Some(p) => self.pages().contains_key(spec_page_of(gpa)) && *p == self.pages()[spec_page_of(gpa)],
                None => !self.pages().contains_key(spec_page_of(gpa)),
            },
    {
        let key = page_align(gpa);
        self.pages.get(&key)
    }

    /// Record the copy of the page holding `gpa` (replacing an earlier one).
    pub fn insert(&mut self, gpa: u64, page: P) -> (r: Result<(), ()>)
        ensures
            r is Ok,
            final(self).pages() == old(self).pages().insert(spec_page_of(gpa), page),
    {
        let key = page_align(gpa);
        let _ = self.pages.insert(key, page);
        Ok(())
    }

    /// Whether the page holding `gpa` has been copied.
    pub fn contains(&self, gpa: u64) -> (r: bool)
        ensures
            r == self.pages().contains_key(spec_page_of(gpa)),
    {
        let key = page_align(gpa);
        self.pages.contains_key(&key)
    }

    /// Number of copied pages.
    pub fn len(&self) -> (r: usize)
        ensures
            r == self.pages().len(),
    {
        self.pages.len()
    }

    /// Whether no page has been copied.
    pub fn is_empty(&self) -> (r: bool)
        ensures
            r == (self.pages().len() == 0),
    {
        self.pages.is_empty()
    }
}

} // verus!
