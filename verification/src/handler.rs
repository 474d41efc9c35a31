//! Tracking of the VMs that exist and allocation of their IDs. VMs are owned
//! elsewhere (by their file descriptors); the handler keeps weak references.
use vstd::prelude::*;

verus! {

/// Opaque reference to a VM: the address of the object that owns it, used
/// only to tell VMs apart.
#[derive(Debug, Clone, Copy, PartialEq, Eq, Structural)]
pub struct VmRef(pub usize);

impl VmRef {
    /// A reference to the VM at `addr`.
    pub fn new(addr: usize) -> (r: Self)
        ensures
            r.0 == addr,
    {
        VmRef(addr)
    }

    /// The address.
    pub fn as_ptr(&self) -> (r: usize)
        ensures
            r == self.0,
    {
        self.0
    }
}

/// A tracked VM: its ID and reference.
#[derive(Debug, Clone, Copy, PartialEq, Eq, Structural)]
pub struct VmEntry {
    /// Unique VM identifier.
    pub vm_id: u64,
    /// Reference to the VM.
    pub vm_ref: VmRef,
}

impl VmEntry {
    /// An entry for VM `vm_id`.
    pub fn new(vm_id: u64, vm_ref: VmRef) -> (r: Self)
        ensures
            r == (VmEntry { vm_id, vm_ref }),
    {
        VmEntry { vm_id, vm_ref }
    }
}

/// The handler: the list of active VMs and the next VM ID; at most
/// `MAX_VMS` VMs can be created.
pub struct BedrockHandler<const MAX_VMS: usize> {
    vm_list: Vec<VmEntry>,
    next_vm_id: u64,
}

/// `entries` without those that refer to `vm_ref`, in order.
pub open spec fn spec_without_ref(entries: Seq<VmEntry>, vm_ref: VmRef) -> Seq<VmEntry> {
    entries.filter(|e: VmEntry| e.vm_ref != vm_ref)
}

/// Index of the first entry with `vm_id`, if any.
pub open spec fn spec_first_with_id(entries: Seq<VmEntry>, vm_id: u64) -> Option<int> {
    if exists|i: int| 0 <= i < entries.len() && entries[i].vm_id == vm_id {
        Some(
            choose|i: int|
                0 <= i < entries.len() && entries[i].vm_id == vm_id && forall|j: int|
                    0 <= j < i ==> entries[j].vm_id != vm_id,
        )
    } else {
        None
    }
}

impl<const MAX_VMS: usize> BedrockHandler<MAX_VMS> {
    /// The tracked VMs, in order of registration.
    pub closed spec fn entries(&self) -> Seq<VmEntry> {
        self.vm_list@
    }

    /// The ID the next allocation returns.
    pub closed spec fn next_id(&self) -> u64 {
        self.next_vm_id
    }

    /// A handler with no VMs; IDs start at 1.
    pub fn new() -> (r: Self)
        ensures
            r.entries() == Seq::<VmEntry>::empty(),
            r.next_id() == 1,
    {
        BedrockHandler { vm_list: Vec::with_capacity(MAX_VMS), next_vm_id: 1 }
    }

    /// Whether another VM can be created.
    pub fn can_create_vm(&self) -> (r: bool)
        ensures
            r == (self.entries().len() < MAX_VMS),
    {
        self.vm_list.len() < MAX_VMS
    }

    /// A fresh VM ID, or `None` when the VM limit is reached.
    pub fn alloc_vm_id(&mut self) -> (r: Option<u64>)
        requires
            old(self).entries().len() < MAX_VMS ==> old(self).next_id() < u64::MAX,
        ensures
            final(self).entries() == old(self).entries(),
            old(self).entries().len() < MAX_VMS ==> r == Some(old(self).next_id())
                && final(self).next_id() == old(self).next_id() + 1,
            old(self).entries().len() >= MAX_VMS ==> r is None
                && final(self).next_id() == old(self).next_id(),
    {
        if !self.can_create_vm() {
            return None;
        }
        let id = self.next_vm_id;
        self.next_vm_id = self.next_vm_id + 1;
        Some(id)
    }

    /// Register a VM.
    pub fn add_vm(&mut self, vm_ref: VmRef, vm_id: u64)
        ensures
            final(self).entries() == old(self).entries().push(VmEntry { vm_id, vm_ref }),
            final(self).next_id() == old(self).next_id(),
    {
        let entry = VmEntry::new(vm_id, vm_ref);
        self.vm_list.push(entry);
    }

    /// Forget every entry of a VM.
    pub fn remove_vm(&mut self, vm_ref: VmRef)
        ensures
            final(self).entries() == spec_without_ref(old(self).entries(), vm_ref),
            final(self).next_id() == old(self).next_id(),
    {
        let mut kept: Vec<VmEntry> = Vec::new();
        let mut i: usize = 0;
        while i < self.vm_list.len()
            invariant
                i <= self.vm_list@.len(),
                self.vm_list@ == old(self).vm_list@,
                self.next_vm_id == old(self).next_vm_id,
                kept@ == spec_without_ref(self.vm_list@.subrange(0, i as int), vm_ref),
            decreases self.vm_list@.len() - i,
        {
            let e = self.vm_list[i];
            proof {
                let s = self.vm_list@.subrange(0, i as int);
                assert(self.vm_list@.subrange(0, i + 1) =~= s.push(e));
                reveal(Seq::filter);
                assert(s.push(e).drop_last() =~= s);
            }
            if e.vm_ref.0 != vm_ref.0 {
                kept.push(e);
            }
            i += 1;
        }
        assert(self.vm_list@.subrange(0, self.vm_list@.len() as int) =~= self.vm_list@);
        self.vm_list = kept;
    }

    /// The reference of the first VM registered with `vm_id`.
    pub fn find_vm_by_id(&self, vm_id: u64) -> (r: Option<VmRef>)
        ensures
            r == match spec_first_with_id(self.entries(), vm_id) {
                Some(i) => Some(self.entries()[i].vm_ref),
                None => None::<VmRef>,
            },
    {
        let mut i: usize = 0;
        while i < self.vm_list.len()
            invariant
                i <= self.vm_list@.len(),
                forall|j: int| 0 <= j < i ==> self.vm_list@[j].vm_id != vm_id,
            decreases self.vm_list@.len() - i,
        {
            if self.vm_list[i].vm_id == vm_id {
                proof {
                    let c = choose|k: int|
                        0 <= k < self.vm_list@.len() && self.vm_list@[k].vm_id == vm_id && forall|j: int|
                            0 <= j < k ==> self.vm_list@[j].vm_id != vm_id;
                    assert(0 <= i < self.vm_list@.len() && self.vm_list@[i as int].vm_id == vm_id);
                    if c < i {
                        assert(self.vm_list@[c].vm_id != vm_id);
                    }
                    if c > i {
                        assert(self.vm_list@[i as int].vm_id != vm_id);
                    }
                }
                return Some(self.vm_list[i].vm_ref);
            }
            i += 1;
        }
        None
    }
}


/// Successive VM IDs are consecutive and so never repeat: the second of two
/// allocations returns one more than the first.
pub proof fn lemma_vm_ids_increase<const MAX_VMS: usize>(
    h0: BedrockHandler<MAX_VMS>,
    h1: BedrockHandler<MAX_VMS>,
    h2: BedrockHandler<MAX_VMS>,
    id1: u64,
    id2: u64,
)
    requires
        h0.entries().len() < MAX_VMS,
        h1.entries() == h0.entries(),
        h1.next_id() == h0.next_id() + 1,
        id1 == h0.next_id(),
        h1.entries().len() < MAX_VMS ==> id2 == h1.next_id() && h2.next_id() == h1.next_id() + 1,
    ensures
        id2 == id1 + 1,
        id1 < id2,
{
}

} // verus!
