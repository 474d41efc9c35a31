//! EPT violations: which emulation an access needs, and the walk of the
//! guest's 4-level page tables that translates guest virtual addresses.
use vstd::prelude::*;
use crate::exits::emulation::{emulate_ept_action, spec_emulation_frame, spec_ept_emulated, ExitEmulation};
use crate::exits::helpers::ExitHandlerResult;
use crate::exits::qualifications::{spec_ept_violation_qualification, EptViolationQualification};
use crate::exits::reasons::ExitReason;
use crate::fields::{VmcsField64, VmcsFieldNatural};
use crate::traits::instruction_counter::InstructionCounter;
use crate::vm::root::RootVm;
use crate::vm_state::vm::VmState;

verus! {

/// Guest-physical base of the local APIC MMIO page.
pub const APIC_BASE: u64 = 0xFEE0_0000;

/// Size of the local APIC MMIO region.
pub const APIC_SIZE: u64 = 0x1000;

/// Guest-physical base of the I/O APIC MMIO page.
pub const IOAPIC_BASE: u64 = 0xFEC0_0000;

/// Size of the I/O APIC MMIO region.
pub const IOAPIC_SIZE: u64 = 0x1000;

/// Size of a guest page.
pub const PAGE_SIZE: u64 = 4096;

/// Physical-address bits of a page-table entry or CR3 (51:12).
pub const PTE_ADDR_MASK: u64 = 0x000F_FFFF_FFFF_F000;

/// Whether a guest-physical address lies in the local APIC page.
pub open spec fn spec_is_apic(gpa: u64) -> bool {
    APIC_BASE <= gpa < APIC_BASE + APIC_SIZE
}

/// Whether a guest-physical address lies in the I/O APIC page.
pub open spec fn spec_is_ioapic(gpa: u64) -> bool {
    IOAPIC_BASE <= gpa < IOAPIC_BASE + IOAPIC_SIZE
}

/// What an EPT violation calls for.
#[derive(Debug, Clone, Copy, PartialEq, Eq, Structural)]
pub enum EptViolationAction {
    /// Local APIC MMIO emulation at the address.
    LocalApic(u64),
    /// I/O APIC MMIO emulation at the address.
    IoApic(u64),
    /// A write to a page mapped without write access: copy-on-write.
    CopyOnWrite(u64),
    /// Nothing the hypervisor handles: exit to userspace.
    Unhandled(u64),
}

/// The action for an EPT violation at `gpa`: APIC pages first, then a
/// write to a non-writable page, else unhandled.
pub open spec fn spec_ept_violation_action(gpa: u64, qual: EptViolationQualification) -> EptViolationAction {
    if spec_is_apic(gpa) {
        EptViolationAction::LocalApic(gpa)
    } else if spec_is_ioapic(gpa) {
        EptViolationAction::IoApic(gpa)
    } else if qual.write && !qual.writable {
        EptViolationAction::CopyOnWrite(gpa)
    } else {
        EptViolationAction::Unhandled(gpa)
    }
}

/// The guest-physical address of the violation (0 when it cannot be read).
pub open spec fn spec_violation_gpa<I: InstructionCounter>(state: VmState<I>) -> u64 {
    match state.vmcs@.read64(VmcsField64::GuestPhysicalAddr) {
        Ok(g) => g,
        Err(_) => 0,
    }
}

/// Decide how to handle an EPT violation.
pub fn ept_violation_action<I: InstructionCounter>(
    state: &VmState<I>,
    qual: &EptViolationQualification,
) -> (r: EptViolationAction)
    ensures
        r == spec_ept_violation_action(spec_violation_gpa(*state), *qual),
{
    let guest_phys = match state.vmcs.read64(VmcsField64::GuestPhysicalAddr) {
        Ok(g) => g,
        Err(_) => 0,
    };
    if guest_phys >= APIC_BASE && guest_phys < APIC_BASE + APIC_SIZE {
        return EptViolationAction::LocalApic(guest_phys);
    }
    if guest_phys >= IOAPIC_BASE && guest_phys < IOAPIC_BASE + IOAPIC_SIZE {
        return EptViolationAction::IoApic(guest_phys);
    }
    if qual.write && !qual.writable {
        return EptViolationAction::CopyOnWrite(guest_phys);
    }
    EptViolationAction::Unhandled(guest_phys)
}

/// Handle an EPT violation with exit qualification `qualification`: APIC
/// and I/O APIC accesses go to `emu`; a write to a page mapped without write
/// access is a copy-on-write fault for `emu`, and when no page can be had
/// the exit goes to userspace to refill the pool (`PoolExhausted`); any
/// other violation leaves the VM as it is and exits to userspace.
pub fn handle_ept_violation<I: InstructionCounter, E: ExitEmulation>(
    vm: &mut RootVm<I>,
    qualification: u64,
    emu: &mut E,
) -> (r: ExitHandlerResult)
    ensures
        ({
            let action = spec_ept_violation_action(
                spec_violation_gpa(old(vm).state),
                spec_ept_violation_qualification(qualification),
            );
            &&& spec_ept_emulated(*old(emu), action, qualification, r)
            &&& spec_emulation_frame(*old(vm), *final(vm))
            &&& action is Unhandled ==> *final(vm) == *old(vm)
        }),
{
    let qual = EptViolationQualification::from_qualification(qualification);
    let action = ept_violation_action(&vm.state, &qual);
    emulate_ept_action(vm, action, qualification, emu)
}

/// The little-endian u64 at byte `at` of `mem`.
pub open spec fn spec_le_u64_at(mem: Seq<u8>, at: int) -> u64 {
    (mem[at] as u64) | ((mem[at + 1] as u64) << 8u64) | ((mem[at + 2] as u64) << 16u64) | ((mem[at
        + 3] as u64) << 24u64) | ((mem[at + 4] as u64) << 32u64) | ((mem[at + 5] as u64) << 40u64)
        | ((mem[at + 6] as u64) << 48u64) | ((mem[at + 7] as u64) << 56u64)
}

/// The page-table entry at guest-physical `addr`, if it lies in memory.
pub open spec fn spec_read_entry(mem: Seq<u8>, addr: int) -> Option<u64> {
    if 0 <= addr && addr + 8 <= mem.len() {
        Some(spec_le_u64_at(mem, addr))
    } else {
        None
    }
}

/// The table entry of `gva` at the level whose index starts at bit `shift`.
pub open spec fn spec_entry(mem: Seq<u8>, table: u64, gva: u64, shift: u64) -> Option<u64> {
    spec_read_entry(mem, table + ((gva >> shift) & 0x1FF) * 8)
}

/// The 4-level page walk of `gva` from `cr3`: `None` when an entry is not
/// present or lies outside memory; 1 GB and 2 MB pages end the walk early.
pub open spec fn spec_translate(mem: Seq<u8>, cr3: u64, gva: u64) -> Option<u64> {
    match spec_entry(mem, cr3 & PTE_ADDR_MASK, gva, 39) {
        None => None,
        Some(pml4e) => if pml4e & 1 == 0 {
            None
        } else {
            match spec_entry(mem, pml4e & PTE_ADDR_MASK, gva, 30) {
                None => None,
                Some(pdpte) => if pdpte & 1 == 0 {
                    None
                } else if pdpte & 0x80 != 0 {
                    Some((pdpte & 0x000F_FFFF_C000_0000) | (gva & 0x3FFF_FFFF))
                } else {
                    match spec_entry(mem, pdpte & PTE_ADDR_MASK, gva, 21) {
                        None => None,
                        Some(pde) => if pde & 1 == 0 {
                            None
                        } else if pde & 0x80 != 0 {
                            Some((pde & 0x000F_FFFF_FFE0_0000) | (gva & 0x1F_FFFF))
                        } else {
                            match spec_entry(mem, pde & PTE_ADDR_MASK, gva, 12) {
                                None => None,
                                Some(pte) => if pte & 1 == 0 {
                                    None
                                } else {
                                    Some((pte & PTE_ADDR_MASK) | (gva & 0xFFF))
                                },
                            }
                        },
                    }
                },
            }
        },
    }
}

/// The translation of `gva` in `vm`'s guest page tables (CR3 from the VMCS).
pub open spec fn spec_translate_in<I: InstructionCounter>(vm: RootVm<I>, gva: u64) -> Option<u64> {
    match vm.state.vmcs@.read_natural(VmcsFieldNatural::GuestCr3) {
        Ok(cr3) => spec_translate(vm.memory@, cr3, gva),
        Err(_) => None,
    }
}

/// Addresses in the same page select the same table entries on the way down,
/// and a page's base (its low bits clear) joined with the offset is their sum.
proof fn lemma_page_bits(x: u64, g1: u64, g2: u64)
    by (bit_vector)
    ensures
        g1 >> 30u64 == g2 >> 30u64 ==> (g1 >> 39u64) & 0x1FF == (g2 >> 39u64) & 0x1FF && (g1
            >> 30u64) & 0x1FF == (g2 >> 30u64) & 0x1FF,
        g1 >> 21u64 == g2 >> 21u64 ==> (g1 >> 39u64) & 0x1FF == (g2 >> 39u64) & 0x1FF && (g1
            >> 30u64) & 0x1FF == (g2 >> 30u64) & 0x1FF && (g1 >> 21u64) & 0x1FF == (g2 >> 21u64)
            & 0x1FF,
        g1 >> 12u64 == g2 >> 12u64 ==> (g1 >> 39u64) & 0x1FF == (g2 >> 39u64) & 0x1FF && (g1
            >> 30u64) & 0x1FF == (g2 >> 30u64) & 0x1FF && (g1 >> 21u64) & 0x1FF == (g2 >> 21u64)
            & 0x1FF && (g1 >> 12u64) & 0x1FF == (g2 >> 12u64) & 0x1FF,
        (x & 0x000F_FFFF_C000_0000) | (g1 & 0x3FFF_FFFF) == (x & 0x000F_FFFF_C000_0000) + g1
            % 0x4000_0000,
        (x & 0x000F_FFFF_FFE0_0000) | (g1 & 0x1F_FFFF) == (x & 0x000F_FFFF_FFE0_0000) + g1
            % 0x20_0000,
        (x & 0x000F_FFFF_FFFF_F000) | (g1 & 0xFFF) == (x & 0x000F_FFFF_FFFF_F000) + g1 % 0x1000,
{
}

/// A walk that meets a present PDPTE with PS set maps a 1 GB page: every
/// address `gva2` in the same 1 GB page as `gva` translates to the page's
/// base (PDPTE bits 51:30) plus its offset in the page.
pub proof fn lemma_translate_1g_page(
    mem: Seq<u8>,
    cr3: u64,
    gva: u64,
    gva2: u64,
    pml4e: u64,
    pdpte: u64,
)
    requires
        spec_entry(mem, cr3 & PTE_ADDR_MASK, gva, 39) == Some(pml4e),
        pml4e & 1 != 0,
        spec_entry(mem, pml4e & PTE_ADDR_MASK, gva, 30) == Some(pdpte),
        pdpte & 1 != 0,
        pdpte & 0x80 != 0,
        gva2 >> 30u64 == gva >> 30u64,
    ensures
        spec_translate(mem, cr3, gva2) == Some(
            ((pdpte & 0x000F_FFFF_C000_0000) + gva2 % 0x4000_0000) as u64,
        ),
{
    lemma_page_bits(pdpte, gva2, gva);
}

/// A walk that meets a present PDE with PS set maps a 2 MB page: every
/// address `gva2` in the same 2 MB page as `gva` translates to the page's
/// base (PDE bits 51:21) plus its offset in the page, so translations in
/// one 2 MB page differ exactly as the addresses do.
pub proof fn lemma_translate_2m_page(
    mem: Seq<u8>,
    cr3: u64,
    gva: u64,
    gva2: u64,
    pml4e: u64,
    pdpte: u64,
    pde: u64,
)
    requires
        spec_entry(mem, cr3 & PTE_ADDR_MASK, gva, 39) == Some(pml4e),
        pml4e & 1 != 0,
        spec_entry(mem, pml4e & PTE_ADDR_MASK, gva, 30) == Some(pdpte),
        pdpte & 1 != 0,
        pdpte & 0x80 == 0,
        spec_entry(mem, pdpte & PTE_ADDR_MASK, gva, 21) == Some(pde),
        pde & 1 != 0,
        pde & 0x80 != 0,
        gva2 >> 21u64 == gva >> 21u64,
    ensures
        spec_translate(mem, cr3, gva2) == Some(
            ((pde & 0x000F_FFFF_FFE0_0000) + gva2 % 0x20_0000) as u64,
        ),
{
    lemma_page_bits(pde, gva2, gva);
}

/// A walk down to a present PTE maps a 4 KB page: every address `gva2` in
/// the same 4 KB page as `gva` translates to the page's base (PTE bits
/// 51:12) plus its offset in the page.
pub proof fn lemma_translate_4k_page(
    mem: Seq<u8>,
    cr3: u64,
    gva: u64,
    gva2: u64,
    pml4e: u64,
    pdpte: u64,
    pde: u64,
    pte: u64,
)
    requires
        spec_entry(mem, cr3 & PTE_ADDR_MASK, gva, 39) == Some(pml4e),
        pml4e & 1 != 0,
        spec_entry(mem, pml4e & PTE_ADDR_MASK, gva, 30) == Some(pdpte),
        pdpte & 1 != 0,
        pdpte & 0x80 == 0,
        spec_entry(mem, pdpte & PTE_ADDR_MASK, gva, 21) == Some(pde),
        pde & 1 != 0,
        pde & 0x80 == 0,
        spec_entry(mem, pde & PTE_ADDR_MASK, gva, 12) == Some(pte),
        pte & 1 != 0,
        gva2 >> 12u64 == gva >> 12u64,
    ensures
        spec_translate(mem, cr3, gva2) == Some(
            ((pte & 0x000F_FFFF_FFFF_F000) + gva2 % 0x1000) as u64,
        ),
{
    lemma_page_bits(pte, gva2, gva);
}

/// Read the table entry of `gva` at one level.
fn read_entry<I: InstructionCounter>(vm: &RootVm<I>, table: u64, gva: u64, shift: u64) -> (r: Result<u64, ()>)
    requires
        table <= PTE_ADDR_MASK,
        shift < 64,
    ensures
        r == match spec_entry(vm.memory@, table, gva, shift) {
            Some(e) => Ok::<u64, ()>(e),
            None => Err(()),
        },
{
    let index = (gva >> shift) & 0x1FF;
    assert(index <= 0x1FF) by (bit_vector)
        requires
            index == (gva >> shift) & 0x1FF,
    ;
    let addr = table + index * 8;
    let bytes = match vm.read_guest_memory(addr, 8) {
        Ok(b) => b,
        Err(_) => return Err(()),
    };
    let v = (bytes[0] as u64) | ((bytes[1] as u64) << 8) | ((bytes[2] as u64) << 16) | ((
    bytes[3] as u64) << 24) | ((bytes[4] as u64) << 32) | ((bytes[5] as u64) << 40) | ((
    bytes[6] as u64) << 48) | ((bytes[7] as u64) << 56);
    Ok(v)
}

/// Translate a guest virtual address to a guest physical address by
/// walking the guest's 4-level page tables.
pub fn translate_gva_to_gpa<I: InstructionCounter>(vm: &RootVm<I>, gva: u64) -> (r: Result<u64, ()>)
    ensures
        r == match spec_translate_in(*vm, gva) {
            Some(g) => Ok::<u64, ()>(g),
            None => Err(()),
        },
{
    let cr3 = match vm.state.vmcs.read_natural(VmcsFieldNatural::GuestCr3) {
        Ok(v) => v,
        Err(_) => return Err(()),
    };
    assert(forall|x: u64| #[trigger] (x & PTE_ADDR_MASK) <= PTE_ADDR_MASK) by (bit_vector);
    let pml4e = read_entry(vm, cr3 & PTE_ADDR_MASK, gva, 39)?;
    if pml4e & 1 == 0 {
        return Err(());
    }
    let pdpte = read_entry(vm, pml4e & PTE_ADDR_MASK, gva, 30)?;
    if pdpte & 1 == 0 {
        return Err(());
    }
    if pdpte & 0x80 != 0 {
        return Ok((pdpte & 0x000F_FFFF_C000_0000) | (gva & 0x3FFF_FFFF));
    }
    let pde = read_entry(vm, pdpte & PTE_ADDR_MASK, gva, 21)?;
    if pde & 1 == 0 {
        return Err(());
    }
    if pde & 0x80 != 0 {
        return Ok((pde & 0x000F_FFFF_FFE0_0000) | (gva & 0x1F_FFFF));
    }
    let pte = read_entry(vm, pde & PTE_ADDR_MASK, gva, 12)?;
    if pte & 1 == 0 {
        return Err(());
    }
    Ok((pte & PTE_ADDR_MASK) | (gva & 0xFFF))
}

/// Whether `slot` holds the page-aligned translation of `gva`.
pub open spec fn spec_page_slot<I: InstructionCounter>(vm: RootVm<I>, gva: u64, slot: u64) -> bool {
    match spec_translate_in(vm, gva) {
        Some(g) => slot == g - g % 4096,
        None => false,
    }
}

/// Number of pages touched by `[gva, gva + size)` for a non-empty range, or
/// `None` when the range wraps around the address space.
pub open spec fn spec_range_pages(gva: u64, size: u64) -> Option<int> {
    if gva + (size - 1) > u64::MAX {
        None
    } else {
        let start = gva - gva % 4096;
        let end_addr = gva + (size - 1);
        let end = end_addr - end_addr % 4096;
        Some((end - start) / 4096 + 1)
    }
}

/// Whether every page of the non-empty range `[gva, gva + size)` translates
/// and there are at most `slots` of them.
pub open spec fn spec_range_translates<I: InstructionCounter>(vm: RootVm<I>, gva: u64, size: u64, slots: int) -> bool {
    match spec_range_pages(gva, size) {
        None => false,
        Some(n) => n <= slots && forall|i: int|
            0 <= i < n ==> #[trigger] spec_translate_in(vm, (gva - gva % 4096 + i * 4096) as u64)
                is Some,
    }
}

/// Translate every page of `[gva, gva + size)` into `gpas` (page-aligned
/// GPAs, in order); returns the number of pages. Fails when the range wraps,
/// needs more than `gpas` holds, or a page does not translate.
pub fn translate_gva_range_to_gpas<I: InstructionCounter>(
    vm: &RootVm<I>,
    gva: u64,
    size: u64,
    gpas: &mut [u64],
) -> (r: Result<usize, ()>)
    ensures
        final(gpas)@.len() == old(gpas)@.len(),
        size == 0 ==> r == Ok::<usize, ()>(0) && final(gpas)@ == old(gpas)@,
        size > 0 && (spec_range_pages(gva, size) is None || spec_range_pages(gva, size)->0 > old(
            gpas,
        )@.len()) ==> final(gpas)@ == old(gpas)@,
        r matches Ok(k) ==> forall|j: int| k <= j < old(gpas)@.len() ==> final(gpas)@[j] == old(
            gpas,
        )@[j],
        size > 0 ==> (r is Ok <==> spec_range_translates(*vm, gva, size, old(gpas)@.len() as int)),
        size > 0 ==> match spec_range_pages(gva, size) {
            None => r is Err,
            Some(n) => if n > old(gpas)@.len() {
                r is Err
            } else {
                let start = gva - gva % 4096;
                match r {
                    Ok(k) => k == n && forall|i: int|
                        0 <= i < n ==> #[trigger] spec_page_slot(
                            *vm,
                            (start + i * 4096) as u64,
                            final(gpas)@[i],
                        ),
                    Err(_) => exists|i: int|
                        0 <= i < n && #[trigger] spec_translate_in(*vm, (start + i * 4096) as u64)
                            is None,
                }
            },
        },
{
    if size == 0 {
        return Ok(0);
    }
    let start_page = gva & !0xFFF;
    let end_addr = match gva.checked_add(size - 1) {
        Some(e) => e,
        None => return Err(()),
    };
    let end_page = end_addr & !0xFFF;
    assert(forall|x: u64| #[trigger] (x & !0xFFFu64) == x - x % 4096) by (bit_vector);
    let num_pages = (end_page - start_page) / PAGE_SIZE + 1;
    if num_pages > gpas.len() as u64 {
        return Err(());
    }
    let n = num_pages as usize;
    let mut i: usize = 0;
    while i < n
        invariant
            size > 0,
            spec_range_pages(gva, size) == Some(n as int),
            n <= gpas@.len(),
            gpas@.len() == old(gpas)@.len(),
            i <= n,
            start_page == gva - gva % 4096,
            start_page + (n - 1) * 4096 <= u64::MAX,
            forall|j: int| i <= j < gpas@.len() ==> gpas@[j] == old(gpas)@[j],
            forall|j: int|
                0 <= j < i ==> #[trigger] spec_page_slot(
                    *vm,
                    (start_page + j * 4096) as u64,
                    gpas@[j],
                ),
        decreases n - i,
    {
        let page_gva = start_page + (i as u64) * PAGE_SIZE;
        let gpa = match translate_gva_to_gpa(vm, page_gva) {
            Ok(g) => g,
            Err(()) => {
                assert(spec_translate_in(*vm, (start_page + i * 4096) as u64) is None);
                return Err(());
            },
        };
        assert(gpa & !0xFFFu64 == gpa - gpa % 4096) by (bit_vector);
        let ghost before = gpas@;
        gpas[i] = gpa & !0xFFF;
        assert(forall|j: int| 0 <= j < gpas@.len() && j != i ==> gpas@[j] == before[j]);
        assert(spec_page_slot(*vm, (start_page + i * 4096) as u64, gpas@[i as int]));
        i += 1;
    }
    assert forall|j: int| 0 <= j < n implies #[trigger] spec_translate_in(
        *vm,
        (gva - gva % 4096 + j * 4096) as u64,
    ) is Some by {
        assert(spec_page_slot(*vm, (start_page + j * 4096) as u64, gpas@[j]));
    }
    Ok(n)
}

} // verus!
