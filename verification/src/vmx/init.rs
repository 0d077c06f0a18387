//! Entering VMX operation.
use vstd::prelude::*;

use super::memory::{spec_with_le_u32, VmxMemory};
use super::msr::{
    adjust_cr0_for_vmx, adjust_cr4_for_vmx, lemma_apply_fixed_bits, lemma_fixed_bits_keep_allowed,
    rdmsr, spec_apply_fixed_bits, spec_keeps_allowed_bits,
    vmx_revision_id,
    FEATURE_CONTROL_LOCKED, FEATURE_CONTROL_VMXON_OUTSIDE_SMX, IA32_FEATURE_CONTROL,
    IA32_VMX_BASIC, IA32_VMX_CR0_FIXED0, IA32_VMX_CR0_FIXED1, IA32_VMX_CR4_FIXED0,
    IA32_VMX_CR4_FIXED1,
};
use super::sim::{read_cr, write_cr, CrWrite, SimEvent, SimState, SimView, HOST_EXIT_STUB};

verus! {

/// IA32_VMX_BASIC bit 55: the "true" capability MSRs and 64-bit VMX are reported.
pub const VMX_BASIC_64BIT: u64 = 0x0080_0000_0000_0000;
/// CR4 bit 13: VMX enable.
pub const CR4_VMXE: u64 = 0x2000;

/// Address of the VM-exit entry point that the host state points at on the
/// simulated processor (a real processor's bring-up hands its own entry point
/// to `BringUp::new`).
pub fn vm_exit_handler_address() -> (address: u64)
    ensures
        address == HOST_EXIT_STUB,
{
    HOST_EXIT_STUB
}

fn read_cr0(sim: &SimState) -> (value: u64)
    ensures
        value == sim@.cr_value(0),
{
    read_cr(sim, 0)
}

fn read_cr4(sim: &SimState) -> (value: u64)
    ensures
        value == sim@.cr_value(4),
{
    read_cr(sim, 4)
}

fn write_cr0(sim: &mut SimState, value: u64)
    ensures
        final(sim)@ == (SimView {
            cr: old(sim)@.cr.update(0, value),
            cr_writes: old(sim)@.cr_writes.push(
                CrWrite { index: 0, value, vmx_events_before: old(sim)@.events.len() as usize },
            ),
            ..old(sim)@
        }),
{
    write_cr(sim, 0, value);
}

fn write_cr4(sim: &mut SimState, value: u64)
    ensures
        final(sim)@ == (SimView {
            cr: old(sim)@.cr.update(4, value),
            cr_writes: old(sim)@.cr_writes.push(
                CrWrite { index: 4, value, vmx_events_before: old(sim)@.events.len() as usize },
            ),
            ..old(sim)@
        }),
{
    write_cr(sim, 4, value);
}

/// IA32_VMX_BASIC reports 64-bit VMX support.
pub open spec fn spec_vmx_64bit(v: SimView) -> bool {
    v.msr(IA32_VMX_BASIC) & VMX_BASIC_64BIT != 0
}

/// IA32_FEATURE_CONTROL is locked.
pub open spec fn spec_feature_control_locked(v: SimView) -> bool {
    v.msr(IA32_FEATURE_CONTROL) & FEATURE_CONTROL_LOCKED != 0
}

/// IA32_FEATURE_CONTROL allows VMXON outside SMX.
pub open spec fn spec_vmxon_outside_smx(v: SimView) -> bool {
    v.msr(IA32_FEATURE_CONTROL) & FEATURE_CONTROL_VMXON_OUTSIDE_SMX != 0
}

/// Every check before `VMXON` passes.
pub open spec fn spec_vmx_checks_pass(v: SimView) -> bool {
    spec_vmx_64bit(v) && spec_feature_control_locked(v) && spec_vmxon_outside_smx(v)
}

/// CR0 with the VMX fixed bits applied.
pub open spec fn spec_vmx_cr0(v: SimView) -> u64 {
    spec_apply_fixed_bits(v.cr_value(0), v.msr(IA32_VMX_CR0_FIXED0), v.msr(IA32_VMX_CR0_FIXED1))
}

/// CR4 with VMXE set and the VMX fixed bits applied.
pub open spec fn spec_vmx_cr4(v: SimView) -> u64 {
    spec_apply_fixed_bits(
        v.cr_value(4) | CR4_VMXE,
        v.msr(IA32_VMX_CR4_FIXED0),
        v.msr(IA32_VMX_CR4_FIXED1),
    )
}

/// The processor state after `enable_vmx` with the VMXON region at `vmxon_pa`:
/// when every check passes, CR0 and then CR4 are written (CR4 with VMXE),
/// both recorded before any further VMX instruction, and then `VMXON` is
/// executed and logged.
pub open spec fn spec_after_enable_vmx(v: SimView, vmxon_pa: u64) -> SimView {
    if spec_vmx_checks_pass(v) {
        SimView {
            cr: v.cr.update(0, spec_vmx_cr0(v)).update(4, spec_vmx_cr4(v)),
            cr_writes: v.cr_writes.push(
                CrWrite {
                    index: 0,
                    value: spec_vmx_cr0(v),
                    vmx_events_before: v.events.len() as usize,
                },
            ).push(
                CrWrite {
                    index: 4,
                    value: spec_vmx_cr4(v),
                    vmx_events_before: v.events.len() as usize,
                },
            ),
            events: v.events.push(SimEvent::Vmxon { region: vmxon_pa }),
            vmx_enabled: v.vmx_enabled || !v.vmxon_fail,
            ..v
        }
    } else {
        v
    }
}

/// The VMXON region and VMCS of `after` carry `revision`; everything else is as in `before`.
pub open spec fn spec_revision_written(before: VmxMemory, after: VmxMemory, revision: u32) -> bool {
    &&& after.vmxon_region@ == spec_with_le_u32(before.vmxon_region@, 0, revision)
    &&& after.vmcs_region@ == spec_with_le_u32(before.vmcs_region@, 0, revision)
    &&& after.ept_pml4 == before.ept_pml4
    &&& after.ept_pdpt == before.ept_pdpt
    &&& after.ept_pd_pages == before.ept_pd_pages
    &&& after.host_stack == before.host_stack
    &&& after.addresses == before.addresses
}

/// The memory after `enable_vmx`: when IA32_VMX_BASIC reports 64-bit VMX, the
/// revision identifier is written to the VMXON region and the VMCS.
pub open spec fn spec_enable_vmx_memory(v: SimView, before: VmxMemory, after: VmxMemory) -> bool {
    if spec_vmx_64bit(v) {
        spec_revision_written(before, after, (v.msr(IA32_VMX_BASIC) & 0x7FFF_FFFF) as u32)
    } else {
        after == before
    }
}

/// Entering VMX operation sets CR4.VMXE whenever the CR4 fixed-1 MSR allows it,
/// and both control registers then satisfy the fixed-bit MSRs when those are consistent.
pub proof fn lemma_vmx_control_registers(v: SimView)
    ensures
        v.msr(IA32_VMX_CR4_FIXED1) & CR4_VMXE != 0 ==> spec_vmx_cr4(v) & CR4_VMXE != 0,
        v.msr(IA32_VMX_CR0_FIXED0) & v.msr(IA32_VMX_CR0_FIXED1) == v.msr(IA32_VMX_CR0_FIXED0) ==> {
            &&& spec_vmx_cr0(v) & v.msr(IA32_VMX_CR0_FIXED0) == v.msr(IA32_VMX_CR0_FIXED0)
            &&& spec_vmx_cr0(v) & !v.msr(IA32_VMX_CR0_FIXED1) == 0
        },
        v.msr(IA32_VMX_CR4_FIXED0) & v.msr(IA32_VMX_CR4_FIXED1) == v.msr(IA32_VMX_CR4_FIXED0) ==> {
            &&& spec_vmx_cr4(v) & v.msr(IA32_VMX_CR4_FIXED0) == v.msr(IA32_VMX_CR4_FIXED0)
            &&& spec_vmx_cr4(v) & !v.msr(IA32_VMX_CR4_FIXED1) == 0
        },
{
    let cr4 = v.cr_value(4);
    let f0 = v.msr(IA32_VMX_CR4_FIXED0);
    let f1 = v.msr(IA32_VMX_CR4_FIXED1);
    assert(f1 & 0x2000u64 != 0 ==> (((cr4 | 0x2000u64) | f0) & f1) & 0x2000u64 != 0) by (bit_vector);
    if f0 & f1 == f0 {
        lemma_apply_fixed_bits(cr4 | CR4_VMXE, f0, f1);
    }
    let g0 = v.msr(IA32_VMX_CR0_FIXED0);
    let g1 = v.msr(IA32_VMX_CR0_FIXED1);
    if g0 & g1 == g0 {
        lemma_apply_fixed_bits(v.cr_value(0), g0, g1);
    }
}

/// The CR0 and CR4 values that enable VMX keep every bit of the current
/// registers that the fixed-1 MSRs allow, set every must-be-1 bit (and CR4.VMXE)
/// that they allow, clear every bit they forbid, and set nothing else.
pub proof fn lemma_vmx_control_register_bits(v: SimView)
    ensures
        spec_keeps_allowed_bits(
            spec_vmx_cr0(v),
            v.cr_value(0),
            0,
            v.msr(IA32_VMX_CR0_FIXED0),
            v.msr(IA32_VMX_CR0_FIXED1),
        ),
        spec_keeps_allowed_bits(
            spec_vmx_cr4(v),
            v.cr_value(4),
            CR4_VMXE,
            v.msr(IA32_VMX_CR4_FIXED0),
            v.msr(IA32_VMX_CR4_FIXED1),
        ),
{
    let current0 = v.cr_value(0);
    assert(current0 | 0u64 == current0) by (bit_vector);
    lemma_fixed_bits_keep_allowed(
        current0,
        0,
        v.msr(IA32_VMX_CR0_FIXED0),
        v.msr(IA32_VMX_CR0_FIXED1),
    );
    lemma_fixed_bits_keep_allowed(
        v.cr_value(4),
        CR4_VMXE,
        v.msr(IA32_VMX_CR4_FIXED0),
        v.msr(IA32_VMX_CR4_FIXED1),
    );
}

/// Enables VMX operation on the current CPU.
pub fn enable_vmx(sim: &mut SimState, mem: &mut VmxMemory) -> (r: Result<(), &'static str>)
    ensures
        final(sim)@ == spec_after_enable_vmx(old(sim)@, old(mem).addresses.vmxon),
        spec_enable_vmx_memory(old(sim)@, *old(mem), *final(mem)),
        !spec_vmx_64bit(old(sim)@) ==> r == Err::<(), &str>("64-bit VMX not supported"),
        spec_vmx_64bit(old(sim)@) && !spec_feature_control_locked(old(sim)@) ==> r == Err::<
            (),
            &str,
        >("IA32_FEATURE_CONTROL is not locked"),
        spec_vmx_64bit(old(sim)@) && spec_feature_control_locked(old(sim)@)
            && !spec_vmxon_outside_smx(old(sim)@) ==> r == Err::<(), &str>(
            "VMX disabled outside SMX",
        ),
        spec_vmx_checks_pass(old(sim)@) ==> r == (if old(sim)@.vmxon_fail {
            Err::<(), &str>("VMXON failed")
        } else {
            Ok(())
        }),
        spec_vmx_checks_pass(old(sim)@) ==> spec_keeps_allowed_bits(
            final(sim)@.cr_value(0),
            old(sim)@.cr_value(0),
            0,
            old(sim)@.msr(IA32_VMX_CR0_FIXED0),
            old(sim)@.msr(IA32_VMX_CR0_FIXED1),
        ),
        spec_vmx_checks_pass(old(sim)@) ==> spec_keeps_allowed_bits(
            final(sim)@.cr_value(4),
            old(sim)@.cr_value(4),
            CR4_VMXE,
            old(sim)@.msr(IA32_VMX_CR4_FIXED0),
            old(sim)@.msr(IA32_VMX_CR4_FIXED1),
        ),
{
    proof {
        lemma_vmx_control_register_bits(sim@);
    }
    let vmx_basic = rdmsr(sim, IA32_VMX_BASIC);
    if vmx_basic & VMX_BASIC_64BIT == 0 {
        return Err("64-bit VMX not supported");
    }
    initialize_vmx_regions(mem, vmx_basic)?;
    ensure_feature_control(sim)?;

    let mut cr0 = read_cr0(sim);
    let mut cr4 = read_cr4(sim);

    cr0 = adjust_cr0_for_vmx(sim, cr0);
    cr4 = adjust_cr4_for_vmx(sim, cr4 | CR4_VMXE);

    write_cr0(sim, cr0);
    write_cr4(sim, cr4);

    let vmxon_pa = mem.addresses.vmxon;
    if !vmxon(sim, vmxon_pa) {
        return Err("VMXON failed");
    }
    Ok(())
}

/// Writes the VMX revision identifier into the VMXON region and the VMCS.
fn initialize_vmx_regions(mem: &mut VmxMemory, vmx_basic: u64) -> (r: Result<(), &'static str>)
    ensures
        r is Ok,
        spec_revision_written(*old(mem), *final(mem), (vmx_basic & 0x7FFF_FFFF) as u32),
{
    let revision = vmx_revision_id(vmx_basic);
    mem.vmxon_region.set_revision_id(revision);
    mem.vmcs_region.set_revision_id(revision);
    Ok(())
}

/// Checks that IA32_FEATURE_CONTROL is locked and allows VMXON outside SMX.
fn ensure_feature_control(sim: &SimState) -> (r: Result<(), &'static str>)
    ensures
        !spec_feature_control_locked(sim@) ==> r == Err::<(), &str>(
            "IA32_FEATURE_CONTROL is not locked",
        ),
        spec_feature_control_locked(sim@) && !spec_vmxon_outside_smx(sim@) ==> r == Err::<
            (),
            &str,
        >("VMX disabled outside SMX"),
        spec_feature_control_locked(sim@) && spec_vmxon_outside_smx(sim@) ==> r is Ok,
{
    let feature_control = rdmsr(sim, IA32_FEATURE_CONTROL);
    if feature_control & FEATURE_CONTROL_LOCKED == 0 {
        return Err("IA32_FEATURE_CONTROL is not locked");
    }
    if feature_control & FEATURE_CONTROL_VMXON_OUTSIDE_SMX == 0 {
        return Err("VMX disabled outside SMX");
    }
    Ok(())
}

/// Enters VMX operation with the VMXON region at physical address `region`.
pub fn vmxon(sim: &mut SimState, region: u64) -> (ok: bool)
    ensures
        ok == !old(sim)@.vmxon_fail,
        final(sim)@ == (SimView {
            events: old(sim)@.events.push(SimEvent::Vmxon { region }),
            vmx_enabled: old(sim)@.vmx_enabled || !old(sim)@.vmxon_fail,
            ..old(sim)@
        }),
{
    super::sim::vmxon(sim, region)
}

/// Leaves VMX operation on the simulated processor, which always allows it
/// (a real processor executes `VMXOFF` outside this library).
pub fn vmxoff() -> (ok: bool)
    ensures
        ok,
{
    true
}

/// Makes the VMCS at physical address `vmcs_pa` current.
pub fn vmptrld(sim: &mut SimState, vmcs_pa: u64) -> (ok: bool)
    ensures
        ok == old(sim)@.vmx_enabled,
        final(sim)@ == (SimView {
            events: old(sim)@.events.push(SimEvent::Vmptrld { vmcs_pa }),
            vmcs_loaded: old(sim)@.vmcs_loaded || old(sim)@.vmx_enabled,
            ..old(sim)@
        }),
{
    super::sim::vmptrld(sim, vmcs_pa)
}

} // verus!
