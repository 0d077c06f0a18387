//! The hypervisor's 4 KiB regions (VMXON, VMCS, EPT tables) and host stack.
use vstd::prelude::*;

use super::ept::EptTable;

verus! {

/// Number of GiB of physical memory that the EPT identity map covers.
pub const EPT_GB_COUNT: usize = 4;
/// Size of the host stack in bytes.
pub const HOST_STACK_SIZE: usize = 8192;
/// Size of a VMX region (VMXON region, VMCS, EPT table) in bytes.
pub const VMX_REGION_SIZE: usize = 4096;
/// Number of 64-bit entries in a 4 KiB region.
pub const REGION_ENTRY_COUNT: usize = 512;

/// Little-endian `u32` stored at `off`.
pub open spec fn spec_le_u32(b: Seq<u8>, off: int) -> u32 {
    (b[off] as u32) | ((b[off + 1] as u32) << 8u32) | ((b[off + 2] as u32) << 16u32) | ((b[off
        + 3] as u32) << 24u32)
}

/// `b` with the little-endian bytes of `v` stored at `off`.
pub open spec fn spec_with_le_u32(b: Seq<u8>, off: int, v: u32) -> Seq<u8> {
    b.update(off, (v & 0xff) as u8).update(off + 1, ((v >> 8u32) & 0xff) as u8).update(
        off + 2,
        ((v >> 16u32) & 0xff) as u8,
    ).update(off + 3, ((v >> 24u32) & 0xff) as u8)
}

/// Little-endian `u64` stored at `off`.
pub open spec fn spec_le_u64(b: Seq<u8>, off: int) -> u64 {
    (b[off] as u64) | ((b[off + 1] as u64) << 8u64) | ((b[off + 2] as u64) << 16u64) | ((b[off
        + 3] as u64) << 24u64) | ((b[off + 4] as u64) << 32u64) | ((b[off + 5] as u64) << 40u64)
        | ((b[off + 6] as u64) << 48u64) | ((b[off + 7] as u64) << 56u64)
}

/// `b` with the little-endian bytes of `v` stored at `off`.
pub open spec fn spec_with_le_u64(b: Seq<u8>, off: int, v: u64) -> Seq<u8> {
    b.update(off, (v & 0xff) as u8).update(off + 1, ((v >> 8u64) & 0xff) as u8).update(
        off + 2,
        ((v >> 16u64) & 0xff) as u8,
    ).update(off + 3, ((v >> 24u64) & 0xff) as u8).update(
        off + 4,
        ((v >> 32u64) & 0xff) as u8,
    ).update(off + 5, ((v >> 40u64) & 0xff) as u8).update(
        off + 6,
        ((v >> 48u64) & 0xff) as u8,
    ).update(off + 7, ((v >> 56u64) & 0xff) as u8)
}

/// Entry `i` of a region viewed as a table of 64-bit little-endian entries.
pub open spec fn spec_entry(b: Seq<u8>, i: int) -> u64 {
    spec_le_u64(b, 8 * i)
}

/// Little-endian bytes of a `u32` read back give the `u32`.
pub proof fn lemma_le_u32_bytes(v: u32)
    ensures
        v == (((v & 0xff) as u8) as u32) | ((((v >> 8u32) & 0xff) as u8) as u32) << 8u32 | ((((v
            >> 16u32) & 0xff) as u8) as u32) << 16u32 | ((((v >> 24u32) & 0xff) as u8) as u32)
            << 24u32,
{
    assert(v == (((v & 0xff) as u8) as u32) | ((((v >> 8u32) & 0xff) as u8) as u32) << 8u32 | ((((v
        >> 16u32) & 0xff) as u8) as u32) << 16u32 | ((((v >> 24u32) & 0xff) as u8) as u32)
        << 24u32) by (bit_vector);
}

/// Little-endian bytes of a `u64` read back give the `u64`.
pub proof fn lemma_le_u64_bytes(v: u64)
    ensures
        v == (((v & 0xff) as u8) as u64) | ((((v >> 8u64) & 0xff) as u8) as u64) << 8u64 | ((((v
            >> 16u64) & 0xff) as u8) as u64) << 16u64 | ((((v >> 24u64) & 0xff) as u8) as u64)
            << 24u64 | ((((v >> 32u64) & 0xff) as u8) as u64) << 32u64 | ((((v >> 40u64) & 0xff)
            as u8) as u64) << 40u64 | ((((v >> 48u64) & 0xff) as u8) as u64) << 48u64 | ((((v
            >> 56u64) & 0xff) as u8) as u64) << 56u64,
{
    assert(v == (((v & 0xff) as u8) as u64) | ((((v >> 8u64) & 0xff) as u8) as u64) << 8u64 | ((((v
        >> 16u64) & 0xff) as u8) as u64) << 16u64 | ((((v >> 24u64) & 0xff) as u8) as u64)
        << 24u64 | ((((v >> 32u64) & 0xff) as u8) as u64) << 32u64 | ((((v >> 40u64) & 0xff)
        as u8) as u64) << 40u64 | ((((v >> 48u64) & 0xff) as u8) as u64) << 48u64 | ((((v
        >> 56u64) & 0xff) as u8) as u64) << 56u64) by (bit_vector);
}

/// Storing a `u32` and reading it back at the same offset gives the `u32`.
pub proof fn lemma_le_u32_store_load(b: Seq<u8>, off: int, v: u32)
    requires
        0 <= off,
        off + 4 <= b.len(),
    ensures
        spec_le_u32(spec_with_le_u32(b, off, v), off) == v,
        spec_with_le_u32(b, off, v).len() == b.len(),
        forall|k: int|
            0 <= k < b.len() && !(off <= k < off + 4) ==> #[trigger] spec_with_le_u32(b, off, v)[k]
                == b[k],
{
    lemma_le_u32_bytes(v);
}

/// Storing a `u64` and reading it back at the same offset gives the `u64`.
pub proof fn lemma_le_u64_store_load(b: Seq<u8>, off: int, v: u64)
    requires
        0 <= off,
        off + 8 <= b.len(),
    ensures
        spec_le_u64(spec_with_le_u64(b, off, v), off) == v,
        spec_with_le_u64(b, off, v).len() == b.len(),
{
    lemma_le_u64_bytes(v);
}

/// Storing a `u64` leaves every `u64` that does not overlap it unchanged.
pub proof fn lemma_le_u64_store_frame(b: Seq<u8>, off: int, v: u64, other: int)
    requires
        0 <= off,
        off + 8 <= b.len(),
        0 <= other,
        other + 8 <= b.len(),
        other + 8 <= off || off + 8 <= other,
    ensures
        spec_le_u64(spec_with_le_u64(b, off, v), other) == spec_le_u64(b, other),
{
    let b2 = spec_with_le_u64(b, off, v);
    assert(b2[other] == b[other]);
    assert(b2[other + 1] == b[other + 1]);
    assert(b2[other + 2] == b[other + 2]);
    assert(b2[other + 3] == b[other + 3]);
    assert(b2[other + 4] == b[other + 4]);
    assert(b2[other + 5] == b[other + 5]);
    assert(b2[other + 6] == b[other + 6]);
    assert(b2[other + 7] == b[other + 7]);
}

/// Writing a revision identifier and reading it back gives that identifier;
/// every byte after the first four is left as it was.
pub proof fn lemma_revision_id_roundtrip(region: VmxRegion, revision: u32)
    ensures
        spec_le_u32(spec_with_le_u32(region@, 0, revision), 0) == revision,
        spec_with_le_u32(region@, 0, revision).len() == region@.len(),
        forall|k: int|
            4 <= k < region@.len() ==> #[trigger] spec_with_le_u32(region@, 0, revision)[k]
                == region@[k],
{
    region.lemma_len();
    lemma_le_u32_store_load(region@, 0, revision);
}

/// A 4 KiB, page-aligned VMX region (VMXON region, VMCS, or EPT table page).
#[derive(Clone, Copy)]
pub struct VmxRegion {
    bytes: [u8; 4096],
}

impl View for VmxRegion {
    type V = Seq<u8>;

    closed spec fn view(&self) -> Seq<u8> {
        self.bytes@
    }
}

impl VmxRegion {
    /// The region as 512 little-endian 64-bit entries.
    pub open spec fn entries(&self) -> Seq<u64> {
        Seq::new(REGION_ENTRY_COUNT as nat, |i: int| spec_entry(self@, i))
    }

    /// The region's revision identifier (its first 4 bytes, little-endian).
    pub open spec fn spec_revision_id(&self) -> u32 {
        spec_le_u32(self@, 0)
    }

    /// Every region holds exactly 4096 bytes.
    pub proof fn lemma_len(&self)
        ensures
            self@.len() == VMX_REGION_SIZE,
    {
    }

    /// A zero-filled region.
    pub fn new() -> (region: Self)
        ensures
            region@ == Seq::new(VMX_REGION_SIZE as nat, |_i: int| 0u8),
    {
        let region = VmxRegion { bytes: [0; 4096] };
        assert(region@ =~= Seq::new(VMX_REGION_SIZE as nat, |_i: int| 0u8));
        region
    }

    /// The region's bytes.
    pub fn as_bytes(&self) -> (bytes: &[u8; 4096])
        ensures
            bytes@ == self@,
    {
        &self.bytes
    }

    /// The VMCS revision identifier stored in the region's first 4 bytes.
    pub fn revision_id(&self) -> (revision: u32)
        ensures
            revision == self.spec_revision_id(),
    {
        (self.bytes[0] as u32) | ((self.bytes[1] as u32) << 8u32) | ((self.bytes[2] as u32)
            << 16u32) | ((self.bytes[3] as u32) << 24u32)
    }

    /// Stores the VMCS revision identifier in the region's first 4 bytes.
    pub fn set_revision_id(&mut self, revision: u32)
        ensures
            final(self)@ == spec_with_le_u32(old(self)@, 0, revision),
    {
        self.bytes[0] = (revision & 0xff) as u8;
        self.bytes[1] = ((revision >> 8u32) & 0xff) as u8;
        self.bytes[2] = ((revision >> 16u32) & 0xff) as u8;
        self.bytes[3] = ((revision >> 24u32) & 0xff) as u8;
        assert(self@ =~= spec_with_le_u32(old(self)@, 0, revision));
    }

    /// Entry `index` of the region viewed as 64-bit little-endian entries.
    pub fn entry(&self, index: usize) -> (value: u64)
        requires
            index < REGION_ENTRY_COUNT,
        ensures
            value == self.entries()[index as int],
    {
        let off = 8 * index;
        (self.bytes[off] as u64) | ((self.bytes[off + 1] as u64) << 8u64) | ((self.bytes[off + 2]
            as u64) << 16u64) | ((self.bytes[off + 3] as u64) << 24u64) | ((self.bytes[off + 4]
            as u64) << 32u64) | ((self.bytes[off + 5] as u64) << 40u64) | ((self.bytes[off + 6]
            as u64) << 48u64) | ((self.bytes[off + 7] as u64) << 56u64)
    }

    /// Stores `value` little-endian at byte offset `off`.
    fn store_le_u64(&mut self, off: usize, value: u64)
        requires
            off + 8 <= VMX_REGION_SIZE,
        ensures
            final(self)@ == spec_with_le_u64(old(self)@, off as int, value),
    {
        self.bytes[off] = (value & 0xff) as u8;
        self.bytes[off + 1] = ((value >> 8u64) & 0xff) as u8;
        self.bytes[off + 2] = ((value >> 16u64) & 0xff) as u8;
        self.bytes[off + 3] = ((value >> 24u64) & 0xff) as u8;
        self.bytes[off + 4] = ((value >> 32u64) & 0xff) as u8;
        self.bytes[off + 5] = ((value >> 40u64) & 0xff) as u8;
        self.bytes[off + 6] = ((value >> 48u64) & 0xff) as u8;
        self.bytes[off + 7] = ((value >> 56u64) & 0xff) as u8;
        assert(self@ =~= spec_with_le_u64(old(self)@, off as int, value));
    }

    /// Fills the region with the entries of an EPT table (the region then is that table).
    pub fn store_table(&mut self, table: &EptTable)
        ensures
            final(self).entries() == table.entries@,
    {
        let mut i: usize = 0;
        while i < REGION_ENTRY_COUNT
            invariant
                0 <= i <= REGION_ENTRY_COUNT,
                self@.len() == VMX_REGION_SIZE,
                table.entries@.len() == REGION_ENTRY_COUNT,
                forall|j: int| 0 <= j < i ==> #[trigger] spec_entry(self@, j) == table.entries@[j],
            decreases REGION_ENTRY_COUNT - i,
        {
            let ghost before = self@;
            let value = table.entries[i];
            self.store_le_u64(8 * i, value);
            proof {
                lemma_le_u64_store_load(before, 8 * i as int, value);
                assert(spec_entry(self@, i as int) == value);
                assert(value == table.entries@[i as int]);
                assert forall|j: int| 0 <= j < i + 1 implies #[trigger] spec_entry(self@, j)
                    == table.entries@[j] by {
                    if j < i {
                        assert(spec_entry(before, j) == table.entries@[j]);
                        lemma_le_u64_store_frame(before, 8 * i as int, value, 8 * j);
                    }
                }
            }
            i = i + 1;
        }
        assert(self.entries() =~= table.entries@);
    }
}

impl Default for VmxRegion {
    fn default() -> (region: Self)
        ensures
            region@ == Seq::new(VMX_REGION_SIZE as nat, |_i: int| 0u8),
    {
        Self::new()
    }
}

/// The host stack used on VM exits.
pub struct HostStack {
    bytes: [u8; 8192],
}

impl View for HostStack {
    type V = Seq<u8>;

    closed spec fn view(&self) -> Seq<u8> {
        self.bytes@
    }
}

/// `base + size` as 64-bit wrapping address arithmetic.
pub open spec fn spec_wrapping_offset(base: u64, size: u64) -> u64 {
    if base + size <= u64::MAX {
        (base + size) as u64
    } else {
        (base + size - 0x1_0000_0000_0000_0000) as u64
    }
}

impl HostStack {
    /// A zero-filled host stack.
    pub fn new() -> (stack: Self)
        ensures
            stack@ == Seq::new(HOST_STACK_SIZE as nat, |_i: int| 0u8),
    {
        let stack = HostStack { bytes: [0; 8192] };
        assert(stack@ =~= Seq::new(HOST_STACK_SIZE as nat, |_i: int| 0u8));
        stack
    }

    /// Address one past the end of the stack (the initial stack pointer), for
    /// a stack placed at the 16-byte aligned address `base`; the top is 16-byte
    /// aligned as well.
    pub fn top(&self, base: u64) -> (top: u64)
        requires
            base % 16 == 0,
        ensures
            top == spec_wrapping_offset(base, HOST_STACK_SIZE as u64),
            top % 16 == 0,
    {
        base.wrapping_add(HOST_STACK_SIZE as u64)
    }
}

impl Default for HostStack {
    fn default() -> (stack: Self)
        ensures
            stack@ == Seq::new(HOST_STACK_SIZE as nat, |_i: int| 0u8),
    {
        Self::new()
    }
}

/// The page-directory pages of the EPT identity map, one per GiB.
#[derive(Clone, Copy)]
pub struct EptPdPages {
    pub pages: [VmxRegion; EPT_GB_COUNT],
}

impl EptPdPages {
    /// Zero-filled page-directory pages.
    pub fn new() -> (pages: Self)
        ensures
            pages.pages@.len() == EPT_GB_COUNT,
            forall|gb: int|
                0 <= gb < EPT_GB_COUNT ==> #[trigger] pages.pages@[gb]@ == Seq::new(
                    VMX_REGION_SIZE as nat,
                    |_i: int| 0u8,
                ),
    {
        EptPdPages {
            pages: [VmxRegion::new(), VmxRegion::new(), VmxRegion::new(), VmxRegion::new()],
        }
    }
}

impl Default for EptPdPages {
    fn default() -> (pages: Self)
        ensures
            pages.pages@.len() == EPT_GB_COUNT,
            forall|gb: int|
                0 <= gb < EPT_GB_COUNT ==> #[trigger] pages.pages@[gb]@ == Seq::new(
                    VMX_REGION_SIZE as nat,
                    |_i: int| 0u8,
                ),
    {
        Self::new()
    }
}

/// The initial host stack pointer: one past the end of the host stack.
pub open spec fn spec_host_stack_top(addresses: RegionAddresses) -> u64 {
    spec_wrapping_offset(addresses.host_stack, HOST_STACK_SIZE as u64)
}

/// Where the hypervisor's regions live: the physical address of each 4 KiB
/// region and the address of the host stack.
#[derive(Debug, Clone, Copy, PartialEq, Eq)]
pub struct RegionAddresses {
    pub vmxon: u64,
    pub vmcs: u64,
    pub ept_pml4: u64,
    pub ept_pdpt: u64,
    pub ept_pd: [u64; EPT_GB_COUNT],
    pub host_stack: u64,
}

/// The regions sit at 4 KiB-aligned addresses and the host stack at a
/// 16-byte aligned address, as VMX and the x86-64 calling convention require.
pub open spec fn spec_addresses_aligned(addresses: RegionAddresses) -> bool {
    &&& addresses.vmxon % 4096 == 0
    &&& addresses.vmcs % 4096 == 0
    &&& addresses.ept_pml4 % 4096 == 0
    &&& addresses.ept_pdpt % 4096 == 0
    &&& forall|gb: int| 0 <= gb < EPT_GB_COUNT ==> #[trigger] addresses.ept_pd[gb] % 4096 == 0
    &&& addresses.host_stack % 16 == 0
}

/// Whether the addresses meet `spec_addresses_aligned`.
pub fn addresses_aligned(addresses: &RegionAddresses) -> (aligned: bool)
    ensures
        aligned == spec_addresses_aligned(*addresses),
{
    let mut pd_aligned = true;
    let mut gb: usize = 0;
    while gb < EPT_GB_COUNT
        invariant
            0 <= gb <= EPT_GB_COUNT,
            pd_aligned == (forall|g: int| 0 <= g < gb ==> #[trigger] addresses.ept_pd[g] % 4096 == 0),
        decreases EPT_GB_COUNT - gb,
    {
        pd_aligned = pd_aligned && addresses.ept_pd[gb] % 4096 == 0;
        gb = gb + 1;
    }
    addresses.vmxon % 4096 == 0 && addresses.vmcs % 4096 == 0 && addresses.ept_pml4 % 4096 == 0
        && addresses.ept_pdpt % 4096 == 0 && pd_aligned && addresses.host_stack % 16 == 0
}

/// The hypervisor's statically allocated memory: VMXON region, VMCS, the EPT
/// PML4/PDPT/PD pages and the host stack, with their addresses.
pub struct VmxMemory {
    pub vmxon_region: VmxRegion,
    pub vmcs_region: VmxRegion,
    pub ept_pml4: VmxRegion,
    pub ept_pdpt: VmxRegion,
    pub ept_pd_pages: EptPdPages,
    pub host_stack: HostStack,
    pub addresses: RegionAddresses,
}

impl VmxMemory {
    /// Zero-filled regions at the given (aligned) addresses.
    pub fn new(addresses: RegionAddresses) -> (memory: Self)
        requires
            spec_addresses_aligned(addresses),
        ensures
            memory.addresses == addresses,
            memory.vmxon_region@ == Seq::new(VMX_REGION_SIZE as nat, |_i: int| 0u8),
            memory.vmcs_region@ == Seq::new(VMX_REGION_SIZE as nat, |_i: int| 0u8),
            memory.ept_pml4@ == Seq::new(VMX_REGION_SIZE as nat, |_i: int| 0u8),
            memory.ept_pdpt@ == Seq::new(VMX_REGION_SIZE as nat, |_i: int| 0u8),
            memory.ept_pd_pages.pages@.len() == EPT_GB_COUNT,
            forall|gb: int|
                0 <= gb < EPT_GB_COUNT ==> #[trigger] memory.ept_pd_pages.pages@[gb]@ == Seq::new(
                    VMX_REGION_SIZE as nat,
                    |_i: int| 0u8,
                ),
            memory.host_stack@ == Seq::new(HOST_STACK_SIZE as nat, |_i: int| 0u8),
    {
        VmxMemory {
            vmxon_region: VmxRegion::new(),
            vmcs_region: VmxRegion::new(),
            ept_pml4: VmxRegion::new(),
            ept_pdpt: VmxRegion::new(),
            ept_pd_pages: EptPdPages::new(),
            host_stack: HostStack::new(),
            addresses,
        }
    }

    /// The initial host stack pointer: one past the end of the host stack.
    pub fn host_stack_top(&self) -> (top: u64)
        requires
            spec_addresses_aligned(self.addresses),
        ensures
            top == spec_host_stack_top(self.addresses),
            top % 16 == 0,
    {
        self.host_stack.top(self.addresses.host_stack)
    }
}

} // verus!
