use vstd::prelude::*;

use super::sim::{SimState, SimView};
use super::vmcs::{
    encoding, lemma_after_writes_concat, lemma_apply_writes_last, spec_after_writes, spec_writes_result, vmwrite_all,
    VmcsError,
};

verus! {

/// A segment register as the VMCS guest/host areas describe it.
#[derive(Debug, Clone, Copy, Default, PartialEq, Eq)]
pub struct SegmentState {
    pub selector: u16,
    pub base: u64,
    pub limit: u32,
    pub access_rights: u32,
}

/// The processor state that the bring-up copies into the guest and host areas.
#[derive(Debug, Clone, Copy, Default, PartialEq, Eq)]
pub struct CpuState {
    pub cr0: u64,
    pub cr3: u64,
    pub cr4: u64,
    pub dr7: u64,
    pub rip: u64,
    pub rsp: u64,
    pub rflags: u64,
    pub cs: SegmentState,
    pub ss: SegmentState,
    pub ds: SegmentState,
    pub es: SegmentState,
    pub fs: SegmentState,
    pub gs: SegmentState,
    pub tr: SegmentState,
    pub ldtr: SegmentState,
    pub gdtr_base: u64,
    pub gdtr_limit: u32,
    pub idtr_base: u64,
    pub idtr_limit: u32,
    pub efer: u64,
}

/// Raw register readings of the running processor, as the capture reads them
/// (control and debug registers, stack and instruction pointers, flags, segment
/// selectors, the FS/GS base MSRs, the descriptor-table registers and EFER).
#[derive(Debug, Clone, Copy, Default, PartialEq, Eq)]
pub struct RawCpuRegisters {
    pub cr0: u64,
    pub cr3: u64,
    pub cr4: u64,
    pub dr7: u64,
    pub rip: u64,
    pub rsp: u64,
    pub rflags: u64,
    pub cs: u16,
    pub ss: u16,
    pub ds: u16,
    pub es: u16,
    pub fs: u16,
    pub gs: u16,
    pub tr: u16,
    pub ldtr: u16,
    pub fs_base: u64,
    pub gs_base: u64,
    pub gdtr_base: u64,
    pub gdtr_limit: u16,
    pub idtr_base: u64,
    pub idtr_limit: u16,
    pub efer: u64,
}

/// Access rights of a data segment: the "unusable" bit alone for the null
/// selector; otherwise present/long-mode bits, plus "unusable" for an LDT selector.
pub open spec fn spec_segment_access_rights(selector: u16) -> u32 {
    if selector == 0 {
        0x1_0000
    } else if selector & 4 != 0 {
        0x1_A000
    } else {
        0xA000
    }
}

/// A flat data segment: base 0, 4 GiB limit.
pub open spec fn spec_flat_data_segment(selector: u16) -> SegmentState {
    SegmentState {
        selector,
        base: 0,
        limit: 0xFFFF_FFFF,
        access_rights: spec_segment_access_rights(selector),
    }
}

/// The CPU state captured from raw register readings.
pub open spec fn spec_cpu_state_from_registers(regs: RawCpuRegisters) -> CpuState {
    CpuState {
        cr0: regs.cr0,
        cr3: regs.cr3,
        cr4: regs.cr4,
        dr7: regs.dr7,
        rip: regs.rip,
        rsp: regs.rsp,
        rflags: regs.rflags,
        cs: SegmentState { selector: regs.cs, base: 0, limit: 0xFFFF_FFFF, access_rights: 0xA09B },
        ss: spec_flat_data_segment(regs.ss),
        ds: spec_flat_data_segment(regs.ds),
        es: spec_flat_data_segment(regs.es),
        fs: SegmentState {
            selector: regs.fs,
            base: regs.fs_base,
            limit: 0xFFFF_FFFF,
            access_rights: spec_segment_access_rights(regs.fs),
        },
        gs: SegmentState {
            selector: regs.gs,
            base: regs.gs_base,
            limit: 0xFFFF_FFFF,
            access_rights: spec_segment_access_rights(regs.gs),
        },
        tr: SegmentState { selector: regs.tr, base: 0, limit: 0x67, access_rights: 0x008B },
        ldtr: SegmentState { selector: regs.ldtr, base: 0, limit: 0, access_rights: 0x1_0000 },
        gdtr_base: regs.gdtr_base,
        gdtr_limit: regs.gdtr_limit as u32,
        idtr_base: regs.idtr_base,
        idtr_limit: regs.idtr_limit as u32,
        efer: regs.efer,
    }
}

/// Access rights for a data segment selector.
pub fn segment_access_rights(selector: u16) -> (rights: u32)
    ensures
        rights == spec_segment_access_rights(selector),
{
    if selector == 0 {
        return 0x1_0000;
    }
    let mut rights: u32 = 0xA000;
    if selector & 0x4 != 0 {
        rights |= 0x1_0000;
    }
    assert(0xA000u32 | 0x1_0000u32 == 0x1_A000u32) by (bit_vector);
    rights
}

/// A flat (base 0, 4 GiB limit) data segment for the selector.
pub fn flat_data_segment(selector: u16) -> (segment: SegmentState)
    ensures
        segment == spec_flat_data_segment(selector),
{
    SegmentState {
        selector,
        base: 0,
        limit: 0xFFFF_FFFF,
        access_rights: segment_access_rights(selector),
    }
}

/// Builds the captured CPU state from raw register readings: flat data
/// segments for SS/DS/ES, FS/GS with their MSR bases, a 64-bit code segment,
/// a busy TSS and an unusable LDTR.
pub fn cpu_state_from_registers(regs: &RawCpuRegisters) -> (state: CpuState)
    ensures
        state == spec_cpu_state_from_registers(*regs),
        state.cr0 == regs.cr0,
        state.cr3 == regs.cr3,
        state.cr4 == regs.cr4,
        state.dr7 == regs.dr7,
        state.rip == regs.rip,
        state.rsp == regs.rsp,
        state.rflags == regs.rflags,
        state.cs.selector == regs.cs,
        state.ss.selector == regs.ss,
        state.ds.selector == regs.ds,
        state.es.selector == regs.es,
        state.fs.selector == regs.fs,
        state.gs.selector == regs.gs,
        state.tr.selector == regs.tr,
        state.ldtr.selector == regs.ldtr,
        state.fs.base == regs.fs_base,
        state.gs.base == regs.gs_base,
        state.gdtr_base == regs.gdtr_base,
        state.gdtr_limit == regs.gdtr_limit as u32,
        state.idtr_base == regs.idtr_base,
        state.idtr_limit == regs.idtr_limit as u32,
        state.efer == regs.efer,
{
    let cs = SegmentState { selector: regs.cs, base: 0, limit: 0xFFFF_FFFF, access_rights: 0xA09B };
    let ss = flat_data_segment(regs.ss);
    let ds = flat_data_segment(regs.ds);
    let es = flat_data_segment(regs.es);
    let fs = SegmentState {
        selector: regs.fs,
        base: regs.fs_base,
        limit: 0xFFFF_FFFF,
        access_rights: segment_access_rights(regs.fs),
    };
    let gs = SegmentState {
        selector: regs.gs,
        base: regs.gs_base,
        limit: 0xFFFF_FFFF,
        access_rights: segment_access_rights(regs.gs),
    };
    let tr = SegmentState { selector: regs.tr, base: 0, limit: 0x67, access_rights: 0x008B };
    let ldtr = SegmentState { selector: regs.ldtr, base: 0, limit: 0, access_rights: 0x1_0000 };
    CpuState {
        cr0: regs.cr0,
        cr3: regs.cr3,
        cr4: regs.cr4,
        dr7: regs.dr7,
        rip: regs.rip,
        rsp: regs.rsp,
        rflags: regs.rflags,
        cs,
        ss,
        ds,
        es,
        fs,
        gs,
        tr,
        ldtr,
        gdtr_base: regs.gdtr_base,
        gdtr_limit: regs.gdtr_limit as u32,
        idtr_base: regs.idtr_base,
        idtr_limit: regs.idtr_limit as u32,
        efer: regs.efer,
    }
}

/// The captured state of the simulated processor.
pub fn capture_cpu_state(sim: &SimState) -> (state: CpuState)
    ensures
        state == sim@.cpu,
{
    super::sim::cpu_state(sim)
}

/// The captured state holds every register value that was read, each in the
/// field named after it: control and debug registers, RIP, RSP, RFLAGS, every
/// segment selector, the FS/GS base MSRs, both descriptor-table registers and EFER.
pub proof fn lemma_captured_state_fields(regs: RawCpuRegisters)
    ensures
        spec_cpu_state_from_registers(regs).cr0 == regs.cr0,
        spec_cpu_state_from_registers(regs).cr3 == regs.cr3,
        spec_cpu_state_from_registers(regs).cr4 == regs.cr4,
        spec_cpu_state_from_registers(regs).dr7 == regs.dr7,
        spec_cpu_state_from_registers(regs).rip == regs.rip,
        spec_cpu_state_from_registers(regs).rsp == regs.rsp,
        spec_cpu_state_from_registers(regs).rflags == regs.rflags,
        spec_cpu_state_from_registers(regs).cs.selector == regs.cs,
        spec_cpu_state_from_registers(regs).ss.selector == regs.ss,
        spec_cpu_state_from_registers(regs).ds.selector == regs.ds,
        spec_cpu_state_from_registers(regs).es.selector == regs.es,
        spec_cpu_state_from_registers(regs).fs.selector == regs.fs,
        spec_cpu_state_from_registers(regs).gs.selector == regs.gs,
        spec_cpu_state_from_registers(regs).tr.selector == regs.tr,
        spec_cpu_state_from_registers(regs).ldtr.selector == regs.ldtr,
        spec_cpu_state_from_registers(regs).fs.base == regs.fs_base,
        spec_cpu_state_from_registers(regs).gs.base == regs.gs_base,
        spec_cpu_state_from_registers(regs).gdtr_base == regs.gdtr_base,
        spec_cpu_state_from_registers(regs).gdtr_limit == regs.gdtr_limit as u32,
        spec_cpu_state_from_registers(regs).idtr_base == regs.idtr_base,
        spec_cpu_state_from_registers(regs).idtr_limit == regs.idtr_limit as u32,
        spec_cpu_state_from_registers(regs).efer == regs.efer,
{
}

/// The segments of the captured state have the attributes of a 64-bit kernel:
/// a flat 64-bit code segment, flat data segments (FS and GS with their base
/// MSRs) whose access rights mark the null selector unusable and an LDT
/// selector unusable too, a busy 64-bit TSS of 0x68 bytes at base 0, and an
/// unusable LDTR.
pub proof fn lemma_captured_segment_attributes(regs: RawCpuRegisters)
    ensures
        ({
            let s = spec_cpu_state_from_registers(regs);
            &&& s.cs.base == 0 && s.cs.limit == 0xFFFF_FFFF && s.cs.access_rights == 0xA09B
            &&& s.ss.base == 0 && s.ss.limit == 0xFFFF_FFFF
            &&& s.ds.base == 0 && s.ds.limit == 0xFFFF_FFFF
            &&& s.es.base == 0 && s.es.limit == 0xFFFF_FFFF
            &&& s.fs.limit == 0xFFFF_FFFF && s.gs.limit == 0xFFFF_FFFF
            &&& s.tr.base == 0 && s.tr.limit == 0x67 && s.tr.access_rights == 0x8B
            &&& s.ldtr.base == 0 && s.ldtr.limit == 0 && s.ldtr.access_rights == 0x1_0000
            &&& (regs.ss == 0 ==> s.ss.access_rights == 0x1_0000)
            &&& (regs.ss != 0 && regs.ss & 4 == 0 ==> s.ss.access_rights == 0xA000)
            &&& (regs.ss != 0 && regs.ss & 4 != 0 ==> s.ss.access_rights == 0x1_A000)
            &&& (regs.ds == 0 ==> s.ds.access_rights == 0x1_0000)
            &&& (regs.ds != 0 && regs.ds & 4 == 0 ==> s.ds.access_rights == 0xA000)
            &&& (regs.ds != 0 && regs.ds & 4 != 0 ==> s.ds.access_rights == 0x1_A000)
            &&& (regs.es == 0 ==> s.es.access_rights == 0x1_0000)
            &&& (regs.es != 0 && regs.es & 4 == 0 ==> s.es.access_rights == 0xA000)
            &&& (regs.es != 0 && regs.es & 4 != 0 ==> s.es.access_rights == 0x1_A000)
            &&& (regs.fs == 0 ==> s.fs.access_rights == 0x1_0000)
            &&& (regs.fs != 0 && regs.fs & 4 == 0 ==> s.fs.access_rights == 0xA000)
            &&& (regs.fs != 0 && regs.fs & 4 != 0 ==> s.fs.access_rights == 0x1_A000)
            &&& (regs.gs == 0 ==> s.gs.access_rights == 0x1_0000)
            &&& (regs.gs != 0 && regs.gs & 4 == 0 ==> s.gs.access_rights == 0xA000)
            &&& (regs.gs != 0 && regs.gs & 4 != 0 ==> s.gs.access_rights == 0x1_A000)
        }),
{
}

/// The four guest-area writes (selector, base, limit, access rights) of a segment.
pub open spec fn spec_segment_writes(
    selector: u32,
    base: u32,
    limit: u32,
    access_rights: u32,
    segment: SegmentState,
) -> Seq<(u32, u64)> {
    seq![
        (selector, segment.selector as u64),
        (base, segment.base),
        (limit, segment.limit as u64),
        (access_rights, segment.access_rights as u64),
    ]
}

/// The guest-area writes of the control registers, DR7, RSP, RIP and RFLAGS.
pub open spec fn spec_guest_register_writes(state: CpuState) -> Seq<(u32, u64)> {
    seq![
        (encoding::GUEST_CR0, state.cr0),
        (encoding::GUEST_CR3, state.cr3),
        (encoding::GUEST_CR4, state.cr4),
        (encoding::GUEST_DR7, state.dr7),
        (encoding::GUEST_RIP, state.rip),
        (encoding::GUEST_RSP, state.rsp),
        (encoding::GUEST_RFLAGS, state.rflags),
    ]
}

/// The guest-area writes of the descriptor tables and of the activity,
/// interruptibility and pending-debug state (all 0: active, no blocking).
pub open spec fn spec_guest_table_writes(state: CpuState) -> Seq<(u32, u64)> {
    seq![
        (encoding::GUEST_GDTR_BASE, state.gdtr_base),
        (encoding::GUEST_GDTR_LIMIT, state.gdtr_limit as u64),
        (encoding::GUEST_IDTR_BASE, state.idtr_base),
        (encoding::GUEST_IDTR_LIMIT, state.idtr_limit as u64),
        (encoding::GUEST_ACTIVITY_STATE, 0u64),
        (encoding::GUEST_INTERRUPTIBILITY, 0u64),
        (encoding::GUEST_PENDING_DEBUG, 0u64),
    ]
}

/// Every guest-area write of `write_guest_state`, in order.
pub open spec fn spec_guest_state_writes(state: CpuState) -> Seq<(u32, u64)> {
    spec_guest_register_writes(state) + spec_segment_writes(
        encoding::GUEST_ES_SELECTOR,
        encoding::GUEST_ES_BASE,
        encoding::GUEST_ES_LIMIT,
        encoding::GUEST_ES_ACCESS_RIGHTS,
        state.es,
    ) + spec_segment_writes(
        encoding::GUEST_CS_SELECTOR,
        encoding::GUEST_CS_BASE,
        encoding::GUEST_CS_LIMIT,
        encoding::GUEST_CS_ACCESS_RIGHTS,
        state.cs,
    ) + spec_segment_writes(
        encoding::GUEST_SS_SELECTOR,
        encoding::GUEST_SS_BASE,
        encoding::GUEST_SS_LIMIT,
        encoding::GUEST_SS_ACCESS_RIGHTS,
        state.ss,
    ) + spec_segment_writes(
        encoding::GUEST_DS_SELECTOR,
        encoding::GUEST_DS_BASE,
        encoding::GUEST_DS_LIMIT,
        encoding::GUEST_DS_ACCESS_RIGHTS,
        state.ds,
    ) + spec_segment_writes(
        encoding::GUEST_FS_SELECTOR,
        encoding::GUEST_FS_BASE,
        encoding::GUEST_FS_LIMIT,
        encoding::GUEST_FS_ACCESS_RIGHTS,
        state.fs,
    ) + spec_segment_writes(
        encoding::GUEST_GS_SELECTOR,
        encoding::GUEST_GS_BASE,
        encoding::GUEST_GS_LIMIT,
        encoding::GUEST_GS_ACCESS_RIGHTS,
        state.gs,
    ) + spec_segment_writes(
        encoding::GUEST_LDTR_SELECTOR,
        encoding::GUEST_LDTR_BASE,
        encoding::GUEST_LDTR_LIMIT,
        encoding::GUEST_LDTR_ACCESS_RIGHTS,
        state.ldtr,
    ) + spec_segment_writes(
        encoding::GUEST_TR_SELECTOR,
        encoding::GUEST_TR_BASE,
        encoding::GUEST_TR_LIMIT,
        encoding::GUEST_TR_ACCESS_RIGHTS,
        state.tr,
    ) + spec_guest_table_writes(state)
}

/// Every host-area write of `write_host_state`, in order.
pub open spec fn spec_host_state_writes(state: CpuState, host_rip: u64, host_rsp: u64) -> Seq<
    (u32, u64),
> {
    seq![
        (encoding::HOST_CR0, state.cr0),
        (encoding::HOST_CR3, state.cr3),
        (encoding::HOST_CR4, state.cr4),
        (encoding::HOST_CS_SELECTOR, state.cs.selector as u64),
        (encoding::HOST_SS_SELECTOR, state.ss.selector as u64),
        (encoding::HOST_DS_SELECTOR, state.ds.selector as u64),
        (encoding::HOST_ES_SELECTOR, state.es.selector as u64),
        (encoding::HOST_FS_SELECTOR, state.fs.selector as u64),
        (encoding::HOST_GS_SELECTOR, state.gs.selector as u64),
        (encoding::HOST_TR_SELECTOR, state.tr.selector as u64),
        (encoding::HOST_FS_BASE, state.fs.base),
        (encoding::HOST_GS_BASE, state.gs.base),
        (encoding::HOST_TR_BASE, state.tr.base),
        (encoding::HOST_GDTR_BASE, state.gdtr_base),
        (encoding::HOST_IDTR_BASE, state.idtr_base),
        (encoding::HOST_RIP, host_rip),
        (encoding::HOST_RSP, host_rsp),
    ]
}

/// Writes one guest segment (selector, base, limit, access rights).
fn write_guest_segment(
    sim: &mut SimState,
    selector: u32,
    base: u32,
    limit: u32,
    access_rights: u32,
    segment: SegmentState,
) -> (r: Result<(), VmcsError>)
    ensures
        r == spec_writes_result(
            old(sim)@,
            spec_segment_writes(selector, base, limit, access_rights, segment),
        ),
        final(sim)@ == spec_after_writes(
            old(sim)@,
            spec_segment_writes(selector, base, limit, access_rights, segment),
        ),
{
    let writes = segment_writes(selector, base, limit, access_rights, segment);
    vmwrite_all(sim, writes.as_slice())
}

/// Continues a write sequence: after `done`, writing `next` is writing `done + next`.
proof fn lemma_continue_writes(v: SimView, done: Seq<(u32, u64)>, next: Seq<(u32, u64)>)
    requires
        v.vmcs_loaded,
    ensures
        spec_after_writes(spec_after_writes(v, done), next) == spec_after_writes(v, done + next),
        spec_after_writes(v, done).vmcs_loaded,
        spec_writes_result(spec_after_writes(v, done), next) is Ok,
{
    lemma_after_writes_concat(v, done, next);
}

/// Write guest CPU state into the current VMCS.
pub fn write_guest_state(sim: &mut SimState, state: &CpuState) -> (r: Result<(), VmcsError>)
    ensures
        r == spec_writes_result(old(sim)@, spec_guest_state_writes(*state)),
        final(sim)@ == spec_after_writes(old(sim)@, spec_guest_state_writes(*state)),
        old(sim)@.vmcs_loaded ==> spec_guest_area_holds(final(sim)@, *state),
{
    let ghost v = sim@;
    proof {
        if v.vmcs_loaded {
            lemma_guest_state_fields(v, *state);
        }
    }
    let head: [(u32, u64); 7] = [
        (encoding::GUEST_CR0, state.cr0),
        (encoding::GUEST_CR3, state.cr3),
        (encoding::GUEST_CR4, state.cr4),
        (encoding::GUEST_DR7, state.dr7),
        (encoding::GUEST_RIP, state.rip),
        (encoding::GUEST_RSP, state.rsp),
        (encoding::GUEST_RFLAGS, state.rflags),
    ];
    assert(head@ =~= spec_guest_register_writes(*state));
    vmwrite_all(sim, head.as_slice())?;
    let ghost done = spec_guest_register_writes(*state);
    assert(v.vmcs_loaded);

    let ghost next = spec_segment_writes(
        encoding::GUEST_ES_SELECTOR,
        encoding::GUEST_ES_BASE,
        encoding::GUEST_ES_LIMIT,
        encoding::GUEST_ES_ACCESS_RIGHTS,
        state.es,
    );
    proof { lemma_continue_writes(v, done, next); }
    write_guest_segment(
        sim,
        encoding::GUEST_ES_SELECTOR,
        encoding::GUEST_ES_BASE,
        encoding::GUEST_ES_LIMIT,
        encoding::GUEST_ES_ACCESS_RIGHTS,
        state.es,
    )?;
    let ghost done = done + next;

    let ghost next = spec_segment_writes(
        encoding::GUEST_CS_SELECTOR,
        encoding::GUEST_CS_BASE,
        encoding::GUEST_CS_LIMIT,
        encoding::GUEST_CS_ACCESS_RIGHTS,
        state.cs,
    );
    proof { lemma_continue_writes(v, done, next); }
    write_guest_segment(
        sim,
        encoding::GUEST_CS_SELECTOR,
        encoding::GUEST_CS_BASE,
        encoding::GUEST_CS_LIMIT,
        encoding::GUEST_CS_ACCESS_RIGHTS,
        state.cs,
    )?;
    let ghost done = done + next;

    let ghost next = spec_segment_writes(
        encoding::GUEST_SS_SELECTOR,
        encoding::GUEST_SS_BASE,
        encoding::GUEST_SS_LIMIT,
        encoding::GUEST_SS_ACCESS_RIGHTS,
        state.ss,
    );
    proof { lemma_continue_writes(v, done, next); }
    write_guest_segment(
        sim,
        encoding::GUEST_SS_SELECTOR,
        encoding::GUEST_SS_BASE,
        encoding::GUEST_SS_LIMIT,
        encoding::GUEST_SS_ACCESS_RIGHTS,
        state.ss,
    )?;
    let ghost done = done + next;

    let ghost next = spec_segment_writes(
        encoding::GUEST_DS_SELECTOR,
        encoding::GUEST_DS_BASE,
        encoding::GUEST_DS_LIMIT,
        encoding::GUEST_DS_ACCESS_RIGHTS,
        state.ds,
    );
    proof { lemma_continue_writes(v, done, next); }
    write_guest_segment(
        sim,
        encoding::GUEST_DS_SELECTOR,
        encoding::GUEST_DS_BASE,
        encoding::GUEST_DS_LIMIT,
        encoding::GUEST_DS_ACCESS_RIGHTS,
        state.ds,
    )?;
    let ghost done = done + next;

    let ghost next = spec_segment_writes(
        encoding::GUEST_FS_SELECTOR,
        encoding::GUEST_FS_BASE,
        encoding::GUEST_FS_LIMIT,
        encoding::GUEST_FS_ACCESS_RIGHTS,
        state.fs,
    );
    proof { lemma_continue_writes(v, done, next); }
    write_guest_segment(
        sim,
        encoding::GUEST_FS_SELECTOR,
        encoding::GUEST_FS_BASE,
        encoding::GUEST_FS_LIMIT,
        encoding::GUEST_FS_ACCESS_RIGHTS,
        state.fs,
    )?;
    let ghost done = done + next;

    let ghost next = spec_segment_writes(
        encoding::GUEST_GS_SELECTOR,
        encoding::GUEST_GS_BASE,
        encoding::GUEST_GS_LIMIT,
        encoding::GUEST_GS_ACCESS_RIGHTS,
        state.gs,
    );
    proof { lemma_continue_writes(v, done, next); }
    write_guest_segment(
        sim,
        encoding::GUEST_GS_SELECTOR,
        encoding::GUEST_GS_BASE,
        encoding::GUEST_GS_LIMIT,
        encoding::GUEST_GS_ACCESS_RIGHTS,
        state.gs,
    )?;
    let ghost done = done + next;

    let ghost next = spec_segment_writes(
        encoding::GUEST_LDTR_SELECTOR,
        encoding::GUEST_LDTR_BASE,
        encoding::GUEST_LDTR_LIMIT,
        encoding::GUEST_LDTR_ACCESS_RIGHTS,
        state.ldtr,
    );
    proof { lemma_continue_writes(v, done, next); }
    write_guest_segment(
        sim,
        encoding::GUEST_LDTR_SELECTOR,
        encoding::GUEST_LDTR_BASE,
        encoding::GUEST_LDTR_LIMIT,
        encoding::GUEST_LDTR_ACCESS_RIGHTS,
        state.ldtr,
    )?;
    let ghost done = done + next;

    let ghost next = spec_segment_writes(
        encoding::GUEST_TR_SELECTOR,
        encoding::GUEST_TR_BASE,
        encoding::GUEST_TR_LIMIT,
        encoding::GUEST_TR_ACCESS_RIGHTS,
        state.tr,
    );
    proof { lemma_continue_writes(v, done, next); }
    write_guest_segment(
        sim,
        encoding::GUEST_TR_SELECTOR,
        encoding::GUEST_TR_BASE,
        encoding::GUEST_TR_LIMIT,
        encoding::GUEST_TR_ACCESS_RIGHTS,
        state.tr,
    )?;
    let ghost done = done + next;

    let tail: [(u32, u64); 7] = [
        (encoding::GUEST_GDTR_BASE, state.gdtr_base),
        (encoding::GUEST_GDTR_LIMIT, state.gdtr_limit as u64),
        (encoding::GUEST_IDTR_BASE, state.idtr_base),
        (encoding::GUEST_IDTR_LIMIT, state.idtr_limit as u64),
        (encoding::GUEST_ACTIVITY_STATE, 0),
        (encoding::GUEST_INTERRUPTIBILITY, 0),
        (encoding::GUEST_PENDING_DEBUG, 0),
    ];
    assert(tail@ =~= spec_guest_table_writes(*state));
    proof { lemma_continue_writes(v, done, tail@); }
    vmwrite_all(sim, tail.as_slice())?;
    assert(done + tail@ == spec_guest_state_writes(*state));
    Ok(())
}

/// The host-area writes as an array.
fn host_state_write_array(state: &CpuState, host_rip: u64, host_rsp: u64) -> (writes: [(u32, u64); 17])
    ensures
        writes@ == spec_host_state_writes(*state, host_rip, host_rsp),
{
    let writes: [(u32, u64); 17] = [
        (encoding::HOST_CR0, state.cr0),
        (encoding::HOST_CR3, state.cr3),
        (encoding::HOST_CR4, state.cr4),
        (encoding::HOST_CS_SELECTOR, state.cs.selector as u64),
        (encoding::HOST_SS_SELECTOR, state.ss.selector as u64),
        (encoding::HOST_DS_SELECTOR, state.ds.selector as u64),
        (encoding::HOST_ES_SELECTOR, state.es.selector as u64),
        (encoding::HOST_FS_SELECTOR, state.fs.selector as u64),
        (encoding::HOST_GS_SELECTOR, state.gs.selector as u64),
        (encoding::HOST_TR_SELECTOR, state.tr.selector as u64),
        (encoding::HOST_FS_BASE, state.fs.base),
        (encoding::HOST_GS_BASE, state.gs.base),
        (encoding::HOST_TR_BASE, state.tr.base),
        (encoding::HOST_GDTR_BASE, state.gdtr_base),
        (encoding::HOST_IDTR_BASE, state.idtr_base),
        (encoding::HOST_RIP, host_rip),
        (encoding::HOST_RSP, host_rsp),
    ];
    assert(writes@ =~= spec_host_state_writes(*state, host_rip, host_rsp));
    writes
}

/// Write host CPU state into the current VMCS.
pub fn write_host_state(sim: &mut SimState, state: &CpuState, host_rip: u64, host_rsp: u64) -> (r:
    Result<(), VmcsError>)
    ensures
        r == spec_writes_result(old(sim)@, spec_host_state_writes(*state, host_rip, host_rsp)),
        final(sim)@ == spec_after_writes(
            old(sim)@,
            spec_host_state_writes(*state, host_rip, host_rsp),
        ),
        old(sim)@.vmcs_loaded ==> spec_host_area_holds(final(sim)@, *state, host_rip, host_rsp),
{
    proof {
        if sim@.vmcs_loaded {
            lemma_host_state_fields(sim@, *state, host_rip, host_rsp);
        }
    }
    let writes = host_state_write_array(state, host_rip, host_rsp);
    vmwrite_all(sim, writes.as_slice())
}

/// Appends `more` to `writes`.
fn extend_writes(writes: &mut Vec<(u32, u64)>, more: &[(u32, u64)])
    ensures
        final(writes)@ == old(writes)@ + more@,
{
    let mut i: usize = 0;
    while i < more.len()
        invariant
            0 <= i <= more@.len(),
            writes@ == old(writes)@ + more@.take(i as int),
        decreases more@.len() - i,
    {
        writes.push(more[i]);
        i = i + 1;
        assert(writes@ =~= old(writes)@ + more@.take(i as int));
    }
    assert(more@.take(i as int) =~= more@);
}

/// The four guest-area writes of a segment.
fn segment_writes(
    selector: u32,
    base: u32,
    limit: u32,
    access_rights: u32,
    segment: SegmentState,
) -> (writes: [(u32, u64); 4])
    ensures
        writes@ == spec_segment_writes(selector, base, limit, access_rights, segment),
{
    let writes: [(u32, u64); 4] = [
        (selector, segment.selector as u64),
        (base, segment.base),
        (limit, segment.limit as u64),
        (access_rights, segment.access_rights as u64),
    ];
    assert(writes@ =~= spec_segment_writes(selector, base, limit, access_rights, segment));
    writes
}

/// Every guest-area write and then every host-area write of the bring-up, in order.
pub fn state_writes(state: &CpuState, host_rip: u64, host_rsp: u64) -> (writes: Vec<(u32, u64)>)
    ensures
        writes@ == spec_guest_state_writes(*state) + spec_host_state_writes(*state, host_rip, host_rsp),
{
    let mut writes: Vec<(u32, u64)> = Vec::new();
    let regs: [(u32, u64); 7] = [
        (encoding::GUEST_CR0, state.cr0),
        (encoding::GUEST_CR3, state.cr3),
        (encoding::GUEST_CR4, state.cr4),
        (encoding::GUEST_DR7, state.dr7),
        (encoding::GUEST_RIP, state.rip),
        (encoding::GUEST_RSP, state.rsp),
        (encoding::GUEST_RFLAGS, state.rflags),
    ];
    assert(regs@ =~= spec_guest_register_writes(*state));
    extend_writes(&mut writes, regs.as_slice());
    assert(writes@ =~= spec_guest_register_writes(*state));
    let es = segment_writes(
        encoding::GUEST_ES_SELECTOR,
        encoding::GUEST_ES_BASE,
        encoding::GUEST_ES_LIMIT,
        encoding::GUEST_ES_ACCESS_RIGHTS,
        state.es,
    );
    extend_writes(&mut writes, es.as_slice());
    let cs = segment_writes(
        encoding::GUEST_CS_SELECTOR,
        encoding::GUEST_CS_BASE,
        encoding::GUEST_CS_LIMIT,
        encoding::GUEST_CS_ACCESS_RIGHTS,
        state.cs,
    );
    extend_writes(&mut writes, cs.as_slice());
    let ss = segment_writes(
        encoding::GUEST_SS_SELECTOR,
        encoding::GUEST_SS_BASE,
        encoding::GUEST_SS_LIMIT,
        encoding::GUEST_SS_ACCESS_RIGHTS,
        state.ss,
    );
    extend_writes(&mut writes, ss.as_slice());
    let ds = segment_writes(
        encoding::GUEST_DS_SELECTOR,
        encoding::GUEST_DS_BASE,
        encoding::GUEST_DS_LIMIT,
        encoding::GUEST_DS_ACCESS_RIGHTS,
        state.ds,
    );
    extend_writes(&mut writes, ds.as_slice());
    let fs = segment_writes(
        encoding::GUEST_FS_SELECTOR,
        encoding::GUEST_FS_BASE,
        encoding::GUEST_FS_LIMIT,
        encoding::GUEST_FS_ACCESS_RIGHTS,
        state.fs,
    );
    extend_writes(&mut writes, fs.as_slice());
    let gs = segment_writes(
        encoding::GUEST_GS_SELECTOR,
        encoding::GUEST_GS_BASE,
        encoding::GUEST_GS_LIMIT,
        encoding::GUEST_GS_ACCESS_RIGHTS,
        state.gs,
    );
    extend_writes(&mut writes, gs.as_slice());
    let ldtr = segment_writes(
        encoding::GUEST_LDTR_SELECTOR,
        encoding::GUEST_LDTR_BASE,
        encoding::GUEST_LDTR_LIMIT,
        encoding::GUEST_LDTR_ACCESS_RIGHTS,
        state.ldtr,
    );
    extend_writes(&mut writes, ldtr.as_slice());
    let tr = segment_writes(
        encoding::GUEST_TR_SELECTOR,
        encoding::GUEST_TR_BASE,
        encoding::GUEST_TR_LIMIT,
        encoding::GUEST_TR_ACCESS_RIGHTS,
        state.tr,
    );
    extend_writes(&mut writes, tr.as_slice());
    let tables: [(u32, u64); 7] = [
        (encoding::GUEST_GDTR_BASE, state.gdtr_base),
        (encoding::GUEST_GDTR_LIMIT, state.gdtr_limit as u64),
        (encoding::GUEST_IDTR_BASE, state.idtr_base),
        (encoding::GUEST_IDTR_LIMIT, state.idtr_limit as u64),
        (encoding::GUEST_ACTIVITY_STATE, 0),
        (encoding::GUEST_INTERRUPTIBILITY, 0),
        (encoding::GUEST_PENDING_DEBUG, 0),
    ];
    assert(tables@ =~= spec_guest_table_writes(*state));
    extend_writes(&mut writes, tables.as_slice());
    let host = host_state_write_array(state, host_rip, host_rsp);
    extend_writes(&mut writes, host.as_slice());
    writes
}

/// Each guest-area field of the VMCS holds the value of `state` it is named
/// after: control and debug registers, RIP, RSP, RFLAGS, the selector, base,
/// limit and access rights of every segment, the descriptor tables, and an
/// active, unblocked activity state.
pub open spec fn spec_guest_area_holds(v: SimView, state: CpuState) -> bool {
    &&& v.vmcs_value(encoding::GUEST_CR0) == state.cr0
    &&& v.vmcs_value(encoding::GUEST_CR3) == state.cr3
    &&& v.vmcs_value(encoding::GUEST_CR4) == state.cr4
    &&& v.vmcs_value(encoding::GUEST_DR7) == state.dr7
    &&& v.vmcs_value(encoding::GUEST_RIP) == state.rip
    &&& v.vmcs_value(encoding::GUEST_RSP) == state.rsp
    &&& v.vmcs_value(encoding::GUEST_RFLAGS) == state.rflags
    &&& v.vmcs_value(encoding::GUEST_ES_SELECTOR) == state.es.selector as u64
    &&& v.vmcs_value(encoding::GUEST_ES_BASE) == state.es.base
    &&& v.vmcs_value(encoding::GUEST_ES_LIMIT) == state.es.limit as u64
    &&& v.vmcs_value(encoding::GUEST_ES_ACCESS_RIGHTS) == state.es.access_rights as u64
    &&& v.vmcs_value(encoding::GUEST_CS_SELECTOR) == state.cs.selector as u64
    &&& v.vmcs_value(encoding::GUEST_CS_BASE) == state.cs.base
    &&& v.vmcs_value(encoding::GUEST_CS_LIMIT) == state.cs.limit as u64
    &&& v.vmcs_value(encoding::GUEST_CS_ACCESS_RIGHTS) == state.cs.access_rights as u64
    &&& v.vmcs_value(encoding::GUEST_SS_SELECTOR) == state.ss.selector as u64
    &&& v.vmcs_value(encoding::GUEST_SS_BASE) == state.ss.base
    &&& v.vmcs_value(encoding::GUEST_SS_LIMIT) == state.ss.limit as u64
    &&& v.vmcs_value(encoding::GUEST_SS_ACCESS_RIGHTS) == state.ss.access_rights as u64
    &&& v.vmcs_value(encoding::GUEST_DS_SELECTOR) == state.ds.selector as u64
    &&& v.vmcs_value(encoding::GUEST_DS_BASE) == state.ds.base
    &&& v.vmcs_value(encoding::GUEST_DS_LIMIT) == state.ds.limit as u64
    &&& v.vmcs_value(encoding::GUEST_DS_ACCESS_RIGHTS) == state.ds.access_rights as u64
    &&& v.vmcs_value(encoding::GUEST_FS_SELECTOR) == state.fs.selector as u64
    &&& v.vmcs_value(encoding::GUEST_FS_BASE) == state.fs.base
    &&& v.vmcs_value(encoding::GUEST_FS_LIMIT) == state.fs.limit as u64
    &&& v.vmcs_value(encoding::GUEST_FS_ACCESS_RIGHTS) == state.fs.access_rights as u64
    &&& v.vmcs_value(encoding::GUEST_GS_SELECTOR) == state.gs.selector as u64
    &&& v.vmcs_value(encoding::GUEST_GS_BASE) == state.gs.base
    &&& v.vmcs_value(encoding::GUEST_GS_LIMIT) == state.gs.limit as u64
    &&& v.vmcs_value(encoding::GUEST_GS_ACCESS_RIGHTS) == state.gs.access_rights as u64
    &&& v.vmcs_value(encoding::GUEST_LDTR_SELECTOR) == state.ldtr.selector as u64
    &&& v.vmcs_value(encoding::GUEST_LDTR_BASE) == state.ldtr.base
    &&& v.vmcs_value(encoding::GUEST_LDTR_LIMIT) == state.ldtr.limit as u64
    &&& v.vmcs_value(encoding::GUEST_LDTR_ACCESS_RIGHTS) == state.ldtr.access_rights as u64
    &&& v.vmcs_value(encoding::GUEST_TR_SELECTOR) == state.tr.selector as u64
    &&& v.vmcs_value(encoding::GUEST_TR_BASE) == state.tr.base
    &&& v.vmcs_value(encoding::GUEST_TR_LIMIT) == state.tr.limit as u64
    &&& v.vmcs_value(encoding::GUEST_TR_ACCESS_RIGHTS) == state.tr.access_rights as u64
    &&& v.vmcs_value(encoding::GUEST_GDTR_BASE) == state.gdtr_base
    &&& v.vmcs_value(encoding::GUEST_GDTR_LIMIT) == state.gdtr_limit as u64
    &&& v.vmcs_value(encoding::GUEST_IDTR_BASE) == state.idtr_base
    &&& v.vmcs_value(encoding::GUEST_IDTR_LIMIT) == state.idtr_limit as u64
    &&& v.vmcs_value(encoding::GUEST_ACTIVITY_STATE) == 0
    &&& v.vmcs_value(encoding::GUEST_INTERRUPTIBILITY) == 0
    &&& v.vmcs_value(encoding::GUEST_PENDING_DEBUG) == 0
}

/// Each host-area field of the VMCS holds the value it is named after: the
/// captured control registers, selectors and FS/GS/TR/GDTR/IDTR bases, the
/// VM-exit entry point as RIP and the host stack top as RSP.
pub open spec fn spec_host_area_holds(v: SimView, state: CpuState, host_rip: u64, host_rsp: u64) -> bool {
    &&& v.vmcs_value(encoding::HOST_CR0) == state.cr0
    &&& v.vmcs_value(encoding::HOST_CR3) == state.cr3
    &&& v.vmcs_value(encoding::HOST_CR4) == state.cr4
    &&& v.vmcs_value(encoding::HOST_CS_SELECTOR) == state.cs.selector as u64
    &&& v.vmcs_value(encoding::HOST_SS_SELECTOR) == state.ss.selector as u64
    &&& v.vmcs_value(encoding::HOST_DS_SELECTOR) == state.ds.selector as u64
    &&& v.vmcs_value(encoding::HOST_ES_SELECTOR) == state.es.selector as u64
    &&& v.vmcs_value(encoding::HOST_FS_SELECTOR) == state.fs.selector as u64
    &&& v.vmcs_value(encoding::HOST_GS_SELECTOR) == state.gs.selector as u64
    &&& v.vmcs_value(encoding::HOST_TR_SELECTOR) == state.tr.selector as u64
    &&& v.vmcs_value(encoding::HOST_FS_BASE) == state.fs.base
    &&& v.vmcs_value(encoding::HOST_GS_BASE) == state.gs.base
    &&& v.vmcs_value(encoding::HOST_TR_BASE) == state.tr.base
    &&& v.vmcs_value(encoding::HOST_GDTR_BASE) == state.gdtr_base
    &&& v.vmcs_value(encoding::HOST_IDTR_BASE) == state.idtr_base
    &&& v.vmcs_value(encoding::HOST_RIP) == host_rip
    &&& v.vmcs_value(encoding::HOST_RSP) == host_rsp
}

/// The first half of the guest-area fields hold their values after the guest-state writes.
#[verifier::rlimit(40)]
proof fn lemma_guest_area_first_half(v: SimView, state: CpuState)
    requires
        v.vmcs_loaded,
    ensures
        ({
            let w = spec_after_writes(v, spec_guest_state_writes(state));
            &&& w.vmcs_value(encoding::GUEST_CR0) == state.cr0
            &&& w.vmcs_value(encoding::GUEST_CR3) == state.cr3
            &&& w.vmcs_value(encoding::GUEST_CR4) == state.cr4
            &&& w.vmcs_value(encoding::GUEST_DR7) == state.dr7
            &&& w.vmcs_value(encoding::GUEST_RIP) == state.rip
            &&& w.vmcs_value(encoding::GUEST_RSP) == state.rsp
            &&& w.vmcs_value(encoding::GUEST_RFLAGS) == state.rflags
            &&& w.vmcs_value(encoding::GUEST_ES_SELECTOR) == state.es.selector as u64
            &&& w.vmcs_value(encoding::GUEST_ES_BASE) == state.es.base
            &&& w.vmcs_value(encoding::GUEST_ES_LIMIT) == state.es.limit as u64
            &&& w.vmcs_value(encoding::GUEST_ES_ACCESS_RIGHTS) == state.es.access_rights as u64
            &&& w.vmcs_value(encoding::GUEST_CS_SELECTOR) == state.cs.selector as u64
            &&& w.vmcs_value(encoding::GUEST_CS_BASE) == state.cs.base
            &&& w.vmcs_value(encoding::GUEST_CS_LIMIT) == state.cs.limit as u64
            &&& w.vmcs_value(encoding::GUEST_CS_ACCESS_RIGHTS) == state.cs.access_rights as u64
            &&& w.vmcs_value(encoding::GUEST_SS_SELECTOR) == state.ss.selector as u64
            &&& w.vmcs_value(encoding::GUEST_SS_BASE) == state.ss.base
            &&& w.vmcs_value(encoding::GUEST_SS_LIMIT) == state.ss.limit as u64
            &&& w.vmcs_value(encoding::GUEST_SS_ACCESS_RIGHTS) == state.ss.access_rights as u64
            &&& w.vmcs_value(encoding::GUEST_DS_SELECTOR) == state.ds.selector as u64
            &&& w.vmcs_value(encoding::GUEST_DS_BASE) == state.ds.base
            &&& w.vmcs_value(encoding::GUEST_DS_LIMIT) == state.ds.limit as u64
            &&& w.vmcs_value(encoding::GUEST_DS_ACCESS_RIGHTS) == state.ds.access_rights as u64
        }),
{
    let writes = spec_guest_state_writes(state);
    assert(writes.len() == 46);
    lemma_apply_writes_last(v.vmcs, writes, 0);
    lemma_apply_writes_last(v.vmcs, writes, 1);
    lemma_apply_writes_last(v.vmcs, writes, 2);
    lemma_apply_writes_last(v.vmcs, writes, 3);
    lemma_apply_writes_last(v.vmcs, writes, 4);
    lemma_apply_writes_last(v.vmcs, writes, 5);
    lemma_apply_writes_last(v.vmcs, writes, 6);
    lemma_apply_writes_last(v.vmcs, writes, 7);
    lemma_apply_writes_last(v.vmcs, writes, 8);
    lemma_apply_writes_last(v.vmcs, writes, 9);
    lemma_apply_writes_last(v.vmcs, writes, 10);
    lemma_apply_writes_last(v.vmcs, writes, 11);
    lemma_apply_writes_last(v.vmcs, writes, 12);
    lemma_apply_writes_last(v.vmcs, writes, 13);
    lemma_apply_writes_last(v.vmcs, writes, 14);
    lemma_apply_writes_last(v.vmcs, writes, 15);
    lemma_apply_writes_last(v.vmcs, writes, 16);
    lemma_apply_writes_last(v.vmcs, writes, 17);
    lemma_apply_writes_last(v.vmcs, writes, 18);
    lemma_apply_writes_last(v.vmcs, writes, 19);
    lemma_apply_writes_last(v.vmcs, writes, 20);
    lemma_apply_writes_last(v.vmcs, writes, 21);
    lemma_apply_writes_last(v.vmcs, writes, 22);
}

/// The second half of the guest-area fields hold their values after the guest-state writes.
#[verifier::rlimit(40)]
proof fn lemma_guest_area_second_half(v: SimView, state: CpuState)
    requires
        v.vmcs_loaded,
    ensures
        ({
            let w = spec_after_writes(v, spec_guest_state_writes(state));
            &&& w.vmcs_value(encoding::GUEST_FS_SELECTOR) == state.fs.selector as u64
            &&& w.vmcs_value(encoding::GUEST_FS_BASE) == state.fs.base
            &&& w.vmcs_value(encoding::GUEST_FS_LIMIT) == state.fs.limit as u64
            &&& w.vmcs_value(encoding::GUEST_FS_ACCESS_RIGHTS) == state.fs.access_rights as u64
            &&& w.vmcs_value(encoding::GUEST_GS_SELECTOR) == state.gs.selector as u64
            &&& w.vmcs_value(encoding::GUEST_GS_BASE) == state.gs.base
            &&& w.vmcs_value(encoding::GUEST_GS_LIMIT) == state.gs.limit as u64
            &&& w.vmcs_value(encoding::GUEST_GS_ACCESS_RIGHTS) == state.gs.access_rights as u64
            &&& w.vmcs_value(encoding::GUEST_LDTR_SELECTOR) == state.ldtr.selector as u64
            &&& w.vmcs_value(encoding::GUEST_LDTR_BASE) == state.ldtr.base
            &&& w.vmcs_value(encoding::GUEST_LDTR_LIMIT) == state.ldtr.limit as u64
            &&& w.vmcs_value(encoding::GUEST_LDTR_ACCESS_RIGHTS) == state.ldtr.access_rights as u64
            &&& w.vmcs_value(encoding::GUEST_TR_SELECTOR) == state.tr.selector as u64
            &&& w.vmcs_value(encoding::GUEST_TR_BASE) == state.tr.base
            &&& w.vmcs_value(encoding::GUEST_TR_LIMIT) == state.tr.limit as u64
            &&& w.vmcs_value(encoding::GUEST_TR_ACCESS_RIGHTS) == state.tr.access_rights as u64
            &&& w.vmcs_value(encoding::GUEST_GDTR_BASE) == state.gdtr_base
            &&& w.vmcs_value(encoding::GUEST_GDTR_LIMIT) == state.gdtr_limit as u64
            &&& w.vmcs_value(encoding::GUEST_IDTR_BASE) == state.idtr_base
            &&& w.vmcs_value(encoding::GUEST_IDTR_LIMIT) == state.idtr_limit as u64
            &&& w.vmcs_value(encoding::GUEST_ACTIVITY_STATE) == 0
            &&& w.vmcs_value(encoding::GUEST_INTERRUPTIBILITY) == 0
            &&& w.vmcs_value(encoding::GUEST_PENDING_DEBUG) == 0
        }),
{
    let writes = spec_guest_state_writes(state);
    assert(writes.len() == 46);
    lemma_apply_writes_last(v.vmcs, writes, 23);
    lemma_apply_writes_last(v.vmcs, writes, 24);
    lemma_apply_writes_last(v.vmcs, writes, 25);
    lemma_apply_writes_last(v.vmcs, writes, 26);
    lemma_apply_writes_last(v.vmcs, writes, 27);
    lemma_apply_writes_last(v.vmcs, writes, 28);
    lemma_apply_writes_last(v.vmcs, writes, 29);
    lemma_apply_writes_last(v.vmcs, writes, 30);
    lemma_apply_writes_last(v.vmcs, writes, 31);
    lemma_apply_writes_last(v.vmcs, writes, 32);
    lemma_apply_writes_last(v.vmcs, writes, 33);
    lemma_apply_writes_last(v.vmcs, writes, 34);
    lemma_apply_writes_last(v.vmcs, writes, 35);
    lemma_apply_writes_last(v.vmcs, writes, 36);
    lemma_apply_writes_last(v.vmcs, writes, 37);
    lemma_apply_writes_last(v.vmcs, writes, 38);
    lemma_apply_writes_last(v.vmcs, writes, 39);
    lemma_apply_writes_last(v.vmcs, writes, 40);
    lemma_apply_writes_last(v.vmcs, writes, 41);
    lemma_apply_writes_last(v.vmcs, writes, 42);
    lemma_apply_writes_last(v.vmcs, writes, 43);
    lemma_apply_writes_last(v.vmcs, writes, 44);
    lemma_apply_writes_last(v.vmcs, writes, 45);
}

/// Writing the guest state into a current VMCS leaves each guest-area field
/// holding the captured value it is named after.
pub proof fn lemma_guest_state_fields(v: SimView, state: CpuState)
    requires
        v.vmcs_loaded,
    ensures
        spec_guest_area_holds(spec_after_writes(v, spec_guest_state_writes(state)), state),
{
    lemma_guest_area_first_half(v, state);
    lemma_guest_area_second_half(v, state);
}

/// Writing the host state into a current VMCS leaves each host-area field
/// holding the value it is named after.
#[verifier::rlimit(40)]
pub proof fn lemma_host_state_fields(v: SimView, state: CpuState, host_rip: u64, host_rsp: u64)
    requires
        v.vmcs_loaded,
    ensures
        spec_host_area_holds(
            spec_after_writes(v, spec_host_state_writes(state, host_rip, host_rsp)),
            state,
            host_rip,
            host_rsp,
        ),
{
    let writes = spec_host_state_writes(state, host_rip, host_rsp);
    assert(writes.len() == 17);
    lemma_apply_writes_last(v.vmcs, writes, 0);
    lemma_apply_writes_last(v.vmcs, writes, 1);
    lemma_apply_writes_last(v.vmcs, writes, 2);
    lemma_apply_writes_last(v.vmcs, writes, 3);
    lemma_apply_writes_last(v.vmcs, writes, 4);
    lemma_apply_writes_last(v.vmcs, writes, 5);
    lemma_apply_writes_last(v.vmcs, writes, 6);
    lemma_apply_writes_last(v.vmcs, writes, 7);
    lemma_apply_writes_last(v.vmcs, writes, 8);
    lemma_apply_writes_last(v.vmcs, writes, 9);
    lemma_apply_writes_last(v.vmcs, writes, 10);
    lemma_apply_writes_last(v.vmcs, writes, 11);
    lemma_apply_writes_last(v.vmcs, writes, 12);
    lemma_apply_writes_last(v.vmcs, writes, 13);
    lemma_apply_writes_last(v.vmcs, writes, 14);
    lemma_apply_writes_last(v.vmcs, writes, 15);
    lemma_apply_writes_last(v.vmcs, writes, 16);
}

} // verus!