//! MSR constants and helpers for VMX bring-up.
use vstd::prelude::*;

use super::sim::{read_msr, SimState};

verus! {

pub const IA32_FEATURE_CONTROL: u32 = 0x3A;
pub const IA32_VMX_BASIC: u32 = 0x480;
pub const IA32_VMX_CR0_FIXED0: u32 = 0x486;
pub const IA32_VMX_CR0_FIXED1: u32 = 0x487;
pub const IA32_VMX_CR4_FIXED0: u32 = 0x488;
pub const IA32_VMX_CR4_FIXED1: u32 = 0x489;
pub const IA32_VMX_PROCBASED_CTLS: u32 = 0x482;
pub const IA32_VMX_PROCBASED_CTLS2: u32 = 0x48B;
pub const IA32_VMX_PINBASED_CTLS: u32 = 0x481;
pub const IA32_VMX_EXIT_CTLS: u32 = 0x483;
pub const IA32_VMX_ENTRY_CTLS: u32 = 0x484;
pub const IA32_VMX_VMCS_ENUM: u32 = 0x48A;
pub const IA32_VMX_EPT_VPID_CAP: u32 = 0x48C;
pub const IA32_EFER: u32 = 0xC000_0080;
pub const IA32_FS_BASE: u32 = 0xC000_0100;
pub const IA32_GS_BASE: u32 = 0xC000_0101;

/// IA32_FEATURE_CONTROL bit 2: VMXON allowed outside SMX operation.
pub const FEATURE_CONTROL_VMXON_OUTSIDE_SMX: u64 = 0x4;
/// IA32_FEATURE_CONTROL bit 0: lock bit.
pub const FEATURE_CONTROL_LOCKED: u64 = 0x1;

/// Primary processor-based control bit 31: activate secondary controls.
pub const VMX_PROCBASED_USE_SECONDARY: u64 = 0x8000_0000;
/// Secondary processor-based control bit 1: enable EPT.
pub const VMX_PROCBASED2_ENABLE_EPT: u64 = 0x2;

/// A control value adjusted to a VMX capability MSR: bits 31:0 of the MSR
/// are the bits that must be 1, bits 63:32 the bits that may be 1.
pub open spec fn spec_adjust_vmx_control(current: u64, cap: u64) -> u64 {
    (current & (cap >> 32u64)) | (cap & 0xFFFF_FFFF)
}

/// A control-register value with the VMX fixed bits applied: bits set in
/// `fixed0` forced to 1, bits clear in `fixed1` forced to 0.
pub open spec fn spec_apply_fixed_bits(value: u64, fixed0: u64, fixed1: u64) -> u64 {
    (value | fixed0) & fixed1
}

/// Read a model-specific register.
pub fn rdmsr(sim: &SimState, msr: u32) -> (value: u64)
    ensures
        value == sim@.msr(msr),
{
    read_msr(sim, msr)
}

/// VMX revision ID from `IA32_VMX_BASIC` (bits 30:0).
pub fn vmx_revision_id(basic: u64) -> (revision: u32)
    ensures
        revision as u64 == basic & 0x7FFF_FFFF,
{
    assert(basic & 0x7FFF_FFFF <= 0x7FFF_FFFF) by (bit_vector);
    (basic & 0x7FFF_FFFF) as u32
}

/// Adjust a control field using the VMX capability MSR format.
pub fn adjust_vmx_control_values(current: u64, cap: u64) -> (adjusted: u64)
    ensures
        adjusted == spec_adjust_vmx_control(current, cap),
{
    let allowed0 = cap & 0xFFFF_FFFF;
    let allowed1 = cap >> 32;
    (current & allowed1) | allowed0
}

/// Adjust a control field using the capability MSR `msr`.
pub fn adjust_vmx_control(sim: &SimState, current: u64, msr: u32) -> (adjusted: u64)
    ensures
        adjusted == spec_adjust_vmx_control(current, sim@.msr(msr)),
{
    let cap = rdmsr(sim, msr);
    adjust_vmx_control_values(current, cap)
}

/// Apply Intel fixed CR0 bits required for VMX operation.
pub fn adjust_cr0_for_vmx(sim: &SimState, cr0: u64) -> (adjusted: u64)
    ensures
        adjusted == spec_apply_fixed_bits(
            cr0,
            sim@.msr(IA32_VMX_CR0_FIXED0),
            sim@.msr(IA32_VMX_CR0_FIXED1),
        ),
{
    let fixed0 = rdmsr(sim, IA32_VMX_CR0_FIXED0);
    let fixed1 = rdmsr(sim, IA32_VMX_CR0_FIXED1);
    (cr0 | fixed0) & fixed1
}

/// Apply Intel fixed CR4 bits required for VMX operation.
pub fn adjust_cr4_for_vmx(sim: &SimState, cr4: u64) -> (adjusted: u64)
    ensures
        adjusted == spec_apply_fixed_bits(
            cr4,
            sim@.msr(IA32_VMX_CR4_FIXED0),
            sim@.msr(IA32_VMX_CR4_FIXED1),
        ),
{
    let fixed0 = rdmsr(sim, IA32_VMX_CR4_FIXED0);
    let fixed1 = rdmsr(sim, IA32_VMX_CR4_FIXED1);
    (cr4 | fixed0) & fixed1
}

/// `control` is allowed by the capability MSR value `cap`: every must-be-1
/// bit (bits 31:0 of `cap`) is set, and no bit is set that is neither allowed
/// to be 1 (bits 63:32 of `cap`) nor must be 1.
pub open spec fn spec_control_allowed(control: u64, cap: u64) -> bool {
    &&& control & (cap & 0xFFFF_FFFF) == cap & 0xFFFF_FFFF
    &&& control & !((cap >> 32u64) | (cap & 0xFFFF_FFFF)) == 0
}

/// An adjusted control has every must-be-1 bit set, no bit outside the
/// allowed ones, nothing in bits 63:32, and adjusting it again changes nothing.
pub proof fn lemma_adjust_vmx_control(current: u64, cap: u64)
    ensures
        spec_adjust_vmx_control(current, cap) & (cap & 0xFFFF_FFFF) == cap & 0xFFFF_FFFF,
        spec_adjust_vmx_control(current, cap) & !((cap >> 32u64) | (cap & 0xFFFF_FFFF)) == 0,
        spec_adjust_vmx_control(current, cap) <= 0xFFFF_FFFF,
        spec_adjust_vmx_control(spec_adjust_vmx_control(current, cap), cap)
            == spec_adjust_vmx_control(current, cap),
{
    assert(((current & (cap >> 32u64)) | (cap & 0xFFFF_FFFF)) & (cap & 0xFFFF_FFFF) == cap
        & 0xFFFF_FFFF) by (bit_vector);
    assert(((current & (cap >> 32u64)) | (cap & 0xFFFF_FFFF)) & !((cap >> 32u64) | (cap
        & 0xFFFF_FFFF)) == 0) by (bit_vector);
    assert(((current & (cap >> 32u64)) | (cap & 0xFFFF_FFFF)) <= 0xFFFF_FFFF) by (bit_vector);
    assert(((((current & (cap >> 32u64)) | (cap & 0xFFFF_FFFF)) & (cap >> 32u64)) | (cap
        & 0xFFFF_FFFF)) == ((current & (cap >> 32u64)) | (cap & 0xFFFF_FFFF))) by (bit_vector);
}

/// `written` is what a control register holding `current` becomes when the
/// `forced` bits are requested under the VMX fixed-bit MSRs: no bit that
/// `fixed1` forbids, every bit of `current`, `forced` and `fixed0` that
/// `fixed1` allows, and no bit from anywhere else.
pub open spec fn spec_keeps_allowed_bits(
    written: u64,
    current: u64,
    forced: u64,
    fixed0: u64,
    fixed1: u64,
) -> bool {
    &&& written & !fixed1 == 0
    &&& written & (current & fixed1) == current & fixed1
    &&& written & (forced & fixed1) == forced & fixed1
    &&& written & (fixed0 & fixed1) == fixed0 & fixed1
    &&& written & !(current | forced | fixed0) == 0
}

/// Applying the fixed bits to a value with the `forced` bits requested keeps
/// every allowed bit of the value, the forced bits and the must-be-1 bits,
/// and adds nothing else.
pub proof fn lemma_fixed_bits_keep_allowed(current: u64, forced: u64, fixed0: u64, fixed1: u64)
    ensures
        spec_keeps_allowed_bits(
            spec_apply_fixed_bits(current | forced, fixed0, fixed1),
            current,
            forced,
            fixed0,
            fixed1,
        ),
{
    let w = ((current | forced) | fixed0) & fixed1;
    assert(w == ((current | forced) | fixed0) & fixed1);
    assert(((current | forced) | fixed0) & fixed1 & !fixed1 == 0) by (bit_vector);
    assert(((current | forced) | fixed0) & fixed1 & (current & fixed1) == current & fixed1)
        by (bit_vector);
    assert(((current | forced) | fixed0) & fixed1 & (forced & fixed1) == forced & fixed1)
        by (bit_vector);
    assert(((current | forced) | fixed0) & fixed1 & (fixed0 & fixed1) == fixed0 & fixed1)
        by (bit_vector);
    assert(((current | forced) | fixed0) & fixed1 & !(current | forced | fixed0) == 0)
        by (bit_vector);
}

/// With consistent fixed-bit MSRs (every must-be-1 bit may be 1), the adjusted
/// value has every must-be-1 bit set and no must-be-0 bit set, and adjusting
/// it again changes nothing.
pub proof fn lemma_apply_fixed_bits(value: u64, fixed0: u64, fixed1: u64)
    requires
        fixed0 & fixed1 == fixed0,
    ensures
        spec_apply_fixed_bits(value, fixed0, fixed1) & fixed0 == fixed0,
        spec_apply_fixed_bits(value, fixed0, fixed1) & !fixed1 == 0,
        spec_apply_fixed_bits(spec_apply_fixed_bits(value, fixed0, fixed1), fixed0, fixed1)
            == spec_apply_fixed_bits(value, fixed0, fixed1),
{
    assert(((value | fixed0) & fixed1) & fixed0 == fixed0) by (bit_vector)
        requires
            fixed0 & fixed1 == fixed0,
    ;
    assert(((value | fixed0) & fixed1) & !fixed1 == 0) by (bit_vector);
    assert(((((value | fixed0) & fixed1) | fixed0) & fixed1) == ((value | fixed0) & fixed1))
        by (bit_vector);
}

} // verus!
