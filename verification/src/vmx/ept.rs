//! Extended page tables: entry encodings, the EPT pointer and the identity map.
use vstd::prelude::*;

use super::memory::{RegionAddresses, VmxMemory, EPT_GB_COUNT, REGION_ENTRY_COUNT};

verus! {

pub const EPT_PAGE_SIZE: u64 = 4096;
pub const EPT_LARGE_PAGE_SIZE: u64 = 0x20_0000;

/// Physical-address bits 47:12 of an EPT entry or pointer.
pub const EPT_ADDRESS_MASK: u64 = 0xFFFF_FFFF_F000;

/// An EPT paging structure: 512 64-bit entries.
#[derive(Clone, Copy)]
pub struct EptTable {
    pub entries: [u64; 512],
}

impl EptTable {
    /// A table of non-present (zero) entries.
    pub fn new() -> (table: Self)
        ensures
            table.entries@ == Seq::new(REGION_ENTRY_COUNT as nat, |_i: int| 0u64),
    {
        let table = EptTable { entries: [0; 512] };
        assert(table.entries@ =~= Seq::new(REGION_ENTRY_COUNT as nat, |_i: int| 0u64));
        table
    }
}

impl Default for EptTable {
    fn default() -> (table: Self)
        ensures
            table.entries@ == Seq::new(REGION_ENTRY_COUNT as nat, |_i: int| 0u64),
    {
        Self::new()
    }
}

/// The EPT pointer value for a PML4 table at `pml4_pa`: the table address,
/// a 4-level walk (bits 5:3 = 3) and write-back memory type (bits 2:0 = 6).
pub open spec fn spec_eptp(pml4_pa: u64) -> u64 {
    (pml4_pa & EPT_ADDRESS_MASK) | 0x1E
}

/// A present, readable, writable, executable entry referencing the next table at `pa`.
pub open spec fn spec_ept_table_entry(pa: u64) -> u64 {
    (pa & EPT_ADDRESS_MASK) | 0x7
}

/// A readable, writable, executable 2 MiB large-page entry mapping `physical_base`.
pub open spec fn spec_ept_large_page_entry(physical_base: u64) -> u64 {
    (physical_base & EPT_ADDRESS_MASK) | 0x87
}

/// EPT Pointer (EPTP) structure.
#[derive(Clone, Copy, Default, Debug, PartialEq, Eq)]
pub struct EptPointer {
    pub eptp: u64,
}

impl EptPointer {
    /// The EPT pointer for a PML4 table at `pml4_pa`.
    pub fn new(pml4_pa: u64) -> (pointer: Self)
        ensures
            pointer.eptp == spec_eptp(pml4_pa),
    {
        assert(((pml4_pa & 0xFFFF_FFFF_F000) | (3u64 << 3u64)) | 6u64 == (pml4_pa & 0xFFFF_FFFF_F000)
            | 0x1Eu64) by (bit_vector);
        EptPointer { eptp: (pml4_pa & 0xFFFF_FFFF_F000) | (3 << 3) | 6 }
    }
}

/// Build a present, readable, writable, executable EPT table pointer entry.
pub fn ept_table_entry(pa: u64) -> (entry: u64)
    ensures
        entry == spec_ept_table_entry(pa),
{
    (pa & 0xFFFF_FFFF_F000) | 0x7
}

/// Build a 2 MB large-page EPT entry for an identity map.
pub fn ept_large_page_entry(physical_base: u64) -> (entry: u64)
    ensures
        entry == spec_ept_large_page_entry(physical_base),
{
    (physical_base & 0xFFFF_FFFF_F000) | 0x87
}

/// 1 GiB: the span of one page-directory page of the identity map.
pub const GIB: u64 = 0x4000_0000;

/// Identity-map page-directory entry `i` of GiB `gb`: the 2 MiB page at
/// `gb GiB + i * 2 MiB`.
pub open spec fn spec_identity_pd_entry(gb: int, i: int) -> u64 {
    spec_ept_large_page_entry((gb * GIB + i * EPT_LARGE_PAGE_SIZE) as u64)
}

/// The identity map's PML4: entry 0 references the PDPT, the rest are not present.
pub open spec fn spec_identity_pml4(addresses: RegionAddresses) -> Seq<u64> {
    Seq::new(
        REGION_ENTRY_COUNT as nat,
        |i: int|
            if i == 0 {
                spec_ept_table_entry(addresses.ept_pdpt)
            } else {
                0
            },
    )
}

/// The identity map's PDPT: entry `gb` references page directory `gb` for the
/// first `EPT_GB_COUNT` GiB, the rest are not present.
pub open spec fn spec_identity_pdpt(addresses: RegionAddresses) -> Seq<u64> {
    Seq::new(
        REGION_ENTRY_COUNT as nat,
        |i: int|
            if i < EPT_GB_COUNT {
                spec_ept_table_entry(addresses.ept_pd[i])
            } else {
                0
            },
    )
}

/// Page directory `gb` of the identity map: 512 consecutive 2 MiB pages.
pub open spec fn spec_identity_pd(gb: int) -> Seq<u64> {
    Seq::new(REGION_ENTRY_COUNT as nat, |i: int| spec_identity_pd_entry(gb, i))
}

/// The EPT regions of `mem` hold the identity map of the first `EPT_GB_COUNT` GiB.
pub open spec fn spec_holds_identity_map(mem: VmxMemory) -> bool {
    &&& mem.ept_pml4.entries() == spec_identity_pml4(mem.addresses)
    &&& mem.ept_pdpt.entries() == spec_identity_pdpt(mem.addresses)
    &&& mem.ept_pd_pages.pages@.len() == EPT_GB_COUNT
    &&& forall|gb: int|
        0 <= gb < EPT_GB_COUNT ==> #[trigger] mem.ept_pd_pages.pages@[gb].entries()
            == spec_identity_pd(gb)
}

/// Fills page directory `gb` of the identity map.
fn identity_pd(gb: usize) -> (table: EptTable)
    requires
        gb < EPT_GB_COUNT,
    ensures
        table.entries@ == spec_identity_pd(gb as int),
{
    let mut pd = EptTable::new();
    let mut i: usize = 0;
    while i < REGION_ENTRY_COUNT
        invariant
            gb < EPT_GB_COUNT,
            0 <= i <= REGION_ENTRY_COUNT,
            pd.entries@.len() == REGION_ENTRY_COUNT,
            forall|j: int| 0 <= j < i ==> #[trigger] pd.entries@[j] == spec_identity_pd_entry(gb as int, j),
        decreases REGION_ENTRY_COUNT - i,
    {
        let phys = (gb as u64) * GIB + (i as u64) * EPT_LARGE_PAGE_SIZE;
        pd.entries[i] = ept_large_page_entry(phys);
        i = i + 1;
    }
    assert(pd.entries@ =~= spec_identity_pd(gb as int));
    pd
}

/// Identity-map the first `EPT_GB_COUNT` GB of physical memory using 2 MB pages.
///
/// Static footprint: 1 PML4 + 1 PDPT + 4 PD pages = 24 KB.
pub fn identity_map_ept(mem: &mut VmxMemory)
    ensures
        spec_holds_identity_map(*final(mem)),
        final(mem).vmxon_region == old(mem).vmxon_region,
        final(mem).vmcs_region == old(mem).vmcs_region,
        final(mem).host_stack == old(mem).host_stack,
        final(mem).addresses == old(mem).addresses,
{
    let mut pml4 = EptTable::new();
    pml4.entries[0] = ept_table_entry(mem.addresses.ept_pdpt);
    assert(pml4.entries@ =~= spec_identity_pml4(mem.addresses));

    let mut pdpt = EptTable::new();
    let mut gb: usize = 0;
    while gb < EPT_GB_COUNT
        invariant
            0 <= gb <= EPT_GB_COUNT,
            mem.addresses == old(mem).addresses,
            mem.vmxon_region == old(mem).vmxon_region,
            mem.vmcs_region == old(mem).vmcs_region,
            mem.host_stack == old(mem).host_stack,
            mem.ept_pd_pages.pages@.len() == EPT_GB_COUNT,
            pdpt.entries@.len() == REGION_ENTRY_COUNT,
            pml4.entries@ == spec_identity_pml4(mem.addresses),
            forall|j: int|
                0 <= j < REGION_ENTRY_COUNT ==> #[trigger] pdpt.entries@[j] == (if j < gb {
                    spec_ept_table_entry(mem.addresses.ept_pd[j])
                } else {
                    0
                }),
            forall|j: int|
                0 <= j < gb ==> #[trigger] mem.ept_pd_pages.pages@[j].entries()
                    == spec_identity_pd(j),
        decreases EPT_GB_COUNT - gb,
    {
        let pd = identity_pd(gb);
        pdpt.entries[gb] = ept_table_entry(mem.addresses.ept_pd[gb]);
        let mut page = mem.ept_pd_pages.pages[gb];
        page.store_table(&pd);
        mem.ept_pd_pages.pages[gb] = page;
        gb = gb + 1;
    }
    assert(pdpt.entries@ =~= spec_identity_pdpt(mem.addresses));
    mem.ept_pml4.store_table(&pml4);
    mem.ept_pdpt.store_table(&pdpt);
}

/// Index into the PML4 for guest-physical address `gpa` (bits 47:39).
pub open spec fn spec_pml4_index(gpa: u64) -> u64 {
    (gpa >> 39u64) & 0x1FF
}

/// Index into the PDPT for guest-physical address `gpa` (bits 38:30).
pub open spec fn spec_pdpt_index(gpa: u64) -> u64 {
    (gpa >> 30u64) & 0x1FF
}

/// Index into a page directory for guest-physical address `gpa` (bits 29:21).
pub open spec fn spec_pd_index(gpa: u64) -> u64 {
    (gpa >> 21u64) & 0x1FF
}

/// Frame address of a 2 MiB large-page entry (bits 51:21).
pub open spec fn spec_large_page_frame(entry: u64) -> u64 {
    entry & 0x000F_FFFF_FFE0_0000
}

/// Offset of `gpa` within its 2 MiB page.
pub open spec fn spec_large_page_offset(gpa: u64) -> u64 {
    gpa & 0x1F_FFFF
}

proof fn lemma_identity_indices(gpa: u64)
    requires
        gpa < 0x1_0000_0000,
    ensures
        spec_pml4_index(gpa) == 0,
        spec_pdpt_index(gpa) < 4,
        spec_pd_index(gpa) < 512,
        spec_pdpt_index(gpa) * 0x4000_0000 + spec_pd_index(gpa) * 0x20_0000 == gpa
            & 0xFFFF_FFFF_FFE0_0000,
{
    assert((gpa >> 39u64) & 0x1FF == 0) by (bit_vector)
        requires
            gpa < 0x1_0000_0000,
    ;
    assert((gpa >> 30u64) & 0x1FF < 4) by (bit_vector)
        requires
            gpa < 0x1_0000_0000,
    ;
    assert((gpa >> 21u64) & 0x1FF < 512) by (bit_vector);
    assert(((gpa >> 30u64) & 0x1FF) * 0x4000_0000 + ((gpa >> 21u64) & 0x1FF) * 0x20_0000 == gpa
        & 0xFFFF_FFFF_FFE0_0000) by (bit_vector)
        requires
            gpa < 0x1_0000_0000,
    ;
}

/// The identity map translates: for every guest-physical address below
/// `EPT_GB_COUNT` GiB, PML4 entry 0 is a present read/write/execute reference to
/// the PDPT, the PDPT entry references the page directory of that GiB, and the
/// page-directory entry is a read/write/execute 2 MiB page whose frame plus the
/// offset of the address within it is the address itself.
pub proof fn lemma_identity_map_translates(mem: VmxMemory, gpa: u64)
    requires
        spec_holds_identity_map(mem),
        gpa < EPT_GB_COUNT * GIB,
    ensures
        spec_pml4_index(gpa) == 0,
        spec_pdpt_index(gpa) < EPT_GB_COUNT,
        mem.ept_pml4.entries()[0] & 0x7 == 0x7,
        mem.ept_pml4.entries()[0] & EPT_ADDRESS_MASK == mem.addresses.ept_pdpt & EPT_ADDRESS_MASK,
        mem.ept_pdpt.entries()[spec_pdpt_index(gpa) as int] & 0x7 == 0x7,
        mem.ept_pdpt.entries()[spec_pdpt_index(gpa) as int] & EPT_ADDRESS_MASK
            == mem.addresses.ept_pd[spec_pdpt_index(gpa) as int] & EPT_ADDRESS_MASK,
        ({
            let entry = mem.ept_pd_pages.pages@[spec_pdpt_index(gpa) as int].entries()[spec_pd_index(
                gpa,
            ) as int];
            &&& entry & 0x87 == 0x87
            &&& spec_large_page_frame(entry) | spec_large_page_offset(gpa) == gpa
        }),
{
    lemma_identity_indices(gpa);
    let gb = spec_pdpt_index(gpa);
    let i = spec_pd_index(gpa);
    let pdpt_pa = mem.addresses.ept_pdpt;
    assert(((pdpt_pa & 0xFFFF_FFFF_F000u64) | 0x7u64) & 0x7u64 == 0x7u64) by (bit_vector);
    assert(((pdpt_pa & 0xFFFF_FFFF_F000u64) | 0x7u64) & 0xFFFF_FFFF_F000u64 == pdpt_pa
        & 0xFFFF_FFFF_F000u64) by (bit_vector);
    let pd_pa = mem.addresses.ept_pd[gb as int];
    assert(((pd_pa & 0xFFFF_FFFF_F000u64) | 0x7u64) & 0x7u64 == 0x7u64) by (bit_vector);
    assert(((pd_pa & 0xFFFF_FFFF_F000u64) | 0x7u64) & 0xFFFF_FFFF_F000u64 == pd_pa
        & 0xFFFF_FFFF_F000u64) by (bit_vector);
    assert(mem.ept_pd_pages.pages@[gb as int].entries() == spec_identity_pd(gb as int));
    let base: u64 = gpa & 0xFFFF_FFFF_FFE0_0000;
    assert((gb as int * GIB + i as int * EPT_LARGE_PAGE_SIZE) as u64 == base);
    assert(((base & 0xFFFF_FFFF_F000u64) | 0x87u64) & 0x87u64 == 0x87u64) by (bit_vector);
    assert((((base & 0xFFFF_FFFF_F000u64) | 0x87u64) & 0x000F_FFFF_FFE0_0000u64) | (gpa
        & 0x1F_FFFFu64) == gpa) by (bit_vector)
        requires
            gpa < 0x1_0000_0000,
            base == gpa & 0xFFFF_FFFF_FFE0_0000u64,
    ;
}

/// The EPT pointer references the PML4 at its address, with a 4-level walk
/// (bits 5:3 = 3) and write-back memory type (bits 2:0 = 6), and is never 0.
pub proof fn lemma_eptp_fields(pml4_pa: u64)
    ensures
        spec_eptp(pml4_pa) & EPT_ADDRESS_MASK == pml4_pa & EPT_ADDRESS_MASK,
        (spec_eptp(pml4_pa) >> 3u64) & 0x7 == 3,
        spec_eptp(pml4_pa) & 0x7 == 6,
        spec_eptp(pml4_pa) != 0,
{
    assert(((pml4_pa & 0xFFFF_FFFF_F000u64) | 0x1Eu64) & 0xFFFF_FFFF_F000u64 == pml4_pa
        & 0xFFFF_FFFF_F000u64) by (bit_vector);
    assert((((pml4_pa & 0xFFFF_FFFF_F000u64) | 0x1Eu64) >> 3u64) & 0x7u64 == 3u64) by (bit_vector);
    assert(((pml4_pa & 0xFFFF_FFFF_F000u64) | 0x1Eu64) & 0x7u64 == 6u64) by (bit_vector);
    assert(((pml4_pa & 0xFFFF_FFFF_F000u64) | 0x1Eu64) != 0u64) by (bit_vector);
}

} // verus!
