//! A simulated VMX-capable processor: MSRs, CPUID, control registers, the
//! current VMCS and the VMX instructions, with a log of the VMX instructions
//! that were executed.
use std::collections::HashMap;
use vstd::prelude::*;

use super::msr::{
    FEATURE_CONTROL_LOCKED, FEATURE_CONTROL_VMXON_OUTSIDE_SMX, IA32_EFER, IA32_FEATURE_CONTROL,
    IA32_VMX_BASIC, IA32_VMX_CR0_FIXED0, IA32_VMX_CR0_FIXED1, IA32_VMX_CR4_FIXED0,
    IA32_VMX_CR4_FIXED1, IA32_VMX_ENTRY_CTLS, IA32_VMX_EXIT_CTLS, IA32_VMX_PINBASED_CTLS,
    IA32_VMX_PROCBASED_CTLS, IA32_VMX_PROCBASED_CTLS2,
};
use super::state::{CpuState, SegmentState};
use super::vmcs::encoding;
use super::vmcs::VmcsError;
use super::vmlaunch::VmxLaunchError;

verus! {

/// Address that the simulated bring-up uses as the VM-exit entry point.
pub const HOST_EXIT_STUB: u64 = 0xFFFF_0000_1000;

/// A VMX instruction executed on the simulated processor.
#[derive(Debug, Clone, Copy, PartialEq, Eq)]
pub enum SimEvent {
    Vmxon { region: u64 },
    Vmptrld { vmcs_pa: u64 },
    Vmlaunch,
    Vmwrite { field: u32, value: u64 },
    Vmread { field: u32 },
}

/// A control-register write on the simulated processor, with the number of
/// VMX instructions that had been logged when it happened.
#[derive(Debug, Clone, Copy, PartialEq, Eq)]
pub struct CrWrite {
    pub index: usize,
    pub value: u64,
    pub vmx_events_before: usize,
}

/// The simulated processor.
pub struct SimState {
    pub msrs: HashMap<u32, u64>,
    pub cpuid: HashMap<u32, u32>,
    pub vmcs: HashMap<u32, u64>,
    pub cr: [u64; 5],
    pub vmx_enabled: bool,
    pub vmcs_loaded: bool,
    pub vmxon_fail: bool,
    pub vmlaunch_fail: bool,
    pub events: Vec<SimEvent>,
    pub cr_writes: Vec<CrWrite>,
    pub cpu: CpuState,
}

/// Mathematical model of the simulated processor.
pub struct SimView {
    pub msrs: Map<u32, u64>,
    pub cpuid: Map<u32, u32>,
    pub vmcs: Map<u32, u64>,
    pub cr: Seq<u64>,
    pub vmx_enabled: bool,
    pub vmcs_loaded: bool,
    pub vmxon_fail: bool,
    pub vmlaunch_fail: bool,
    pub events: Seq<SimEvent>,
    pub cr_writes: Seq<CrWrite>,
    pub cpu: CpuState,
}

impl View for SimState {
    type V = SimView;

    open spec fn view(&self) -> SimView {
        SimView {
            msrs: self.msrs@,
            cpuid: self.cpuid@,
            vmcs: self.vmcs@,
            cr: self.cr@,
            vmx_enabled: self.vmx_enabled,
            vmcs_loaded: self.vmcs_loaded,
            vmxon_fail: self.vmxon_fail,
            vmlaunch_fail: self.vmlaunch_fail,
            events: self.events@,
            cr_writes: self.cr_writes@,
            cpu: self.cpu,
        }
    }
}

impl SimView {
    /// Value of an MSR; an MSR that was never set reads as 0.
    pub open spec fn msr(self, msr: u32) -> u64 {
        if self.msrs.contains_key(msr) {
            self.msrs[msr]
        } else {
            0
        }
    }

    /// Value of a VMCS field; a field that was never written reads as 0.
    pub open spec fn vmcs_value(self, field: u32) -> u64 {
        if self.vmcs.contains_key(field) {
            self.vmcs[field]
        } else {
            0
        }
    }

    /// Value of control register `index`; registers beyond CR4 read as 0.
    pub open spec fn cr_value(self, index: int) -> u64 {
        if 0 <= index < self.cr.len() {
            self.cr[index]
        } else {
            0
        }
    }

    /// A VMCS field that `VMLAUNCH` requires has been written with a nonzero value.
    pub open spec fn field_ready(self, field: u32) -> bool {
        self.vmcs.contains_key(field) && self.vmcs[field] != 0
    }

    /// All fields that the simulated `VMLAUNCH` checks are written and nonzero.
    pub open spec fn launch_fields_ready(self) -> bool {
        &&& self.field_ready(encoding::GUEST_RIP)
        &&& self.field_ready(encoding::GUEST_RSP)
        &&& self.field_ready(encoding::HOST_RIP)
        &&& self.field_ready(encoding::HOST_RSP)
        &&& self.field_ready(encoding::EPT_POINTER)
        &&& self.field_ready(encoding::CPU_BASED_VM_EXEC_CONTROL)
        &&& self.field_ready(encoding::SECONDARY_VM_EXEC_CONTROL)
    }

    /// Whether the simulated `VMLAUNCH` succeeds in this state.
    pub open spec fn launch_succeeds(self) -> bool {
        &&& !self.vmlaunch_fail
        &&& self.vmx_enabled
        &&& self.vmcs_loaded
        &&& self.launch_fields_ready()
    }

    /// The VM-instruction error number that a failing `VMLAUNCH` records:
    /// 11 when VMX is off, no VMCS is current or a failure was injected,
    /// 7 (invalid control fields) when a required field is missing or zero.
    pub open spec fn launch_error_number(self) -> u32 {
        if self.vmlaunch_fail || !self.vmx_enabled || !self.vmcs_loaded {
            11
        } else {
            7
        }
    }

    /// The state after a `VMLAUNCH` attempt.
    pub open spec fn after_launch(self) -> SimView {
        if self.launch_succeeds() {
            SimView { events: self.events.push(SimEvent::Vmlaunch), ..self }
        } else {
            SimView {
                events: self.events.push(SimEvent::Vmlaunch),
                vmcs: self.vmcs.insert(
                    encoding::VM_INSTRUCTION_ERROR,
                    self.launch_error_number() as u64,
                ),
                ..self
            }
        }
    }
}

/// An operation on the simulated processor (one of the functions of this module
/// that change it).
#[derive(Debug, Clone, Copy, PartialEq, Eq)]
pub enum SimOp {
    Reset,
    SetMsr { msr: u32, value: u64 },
    SetCpuidEcx { leaf: u32, ecx: u32 },
    SetVmxonFail { fail: bool },
    SetVmlaunchFail { fail: bool },
    WriteCr { index: usize, value: u64 },
    Vmxon { region: u64 },
    Vmptrld { vmcs_pa: u64 },
    Vmwrite { field: u32, value: u64 },
    Vmread { field: u32 },
    Vmlaunch,
}

impl SimOp {
    /// The operation sets CPUID leaf `leaf`.
    pub open spec fn sets_cpuid(self, leaf: u32) -> bool {
        self matches SimOp::SetCpuidEcx { leaf: l, .. } && l == leaf
    }

    /// The operation may change VMCS field `field`: a `VMWRITE` of it, a
    /// `VMLAUNCH` (which records its error number) for the VM-instruction
    /// error field, or a reset.
    pub open spec fn may_write_field(self, field: u32) -> bool {
        ||| self is Reset
        ||| (self matches SimOp::Vmwrite { field: f, .. } && f == field)
        ||| (self is Vmlaunch && field == encoding::VM_INSTRUCTION_ERROR)
    }
}

impl SimView {
    /// The processor state after one operation.
    pub open spec fn apply(self, op: SimOp) -> SimView {
        match op {
            SimOp::Reset => spec_reset_state(),
            SimOp::SetMsr { msr, value } => SimView { msrs: self.msrs.insert(msr, value), ..self },
            SimOp::SetCpuidEcx { leaf, ecx } => SimView {
                cpuid: self.cpuid.insert(leaf, ecx),
                ..self
            },
            SimOp::SetVmxonFail { fail } => SimView { vmxon_fail: fail, ..self },
            SimOp::SetVmlaunchFail { fail } => SimView { vmlaunch_fail: fail, ..self },
            SimOp::WriteCr { index, value } => if index < 5 {
                SimView {
                    cr: self.cr.update(index as int, value),
                    cr_writes: self.cr_writes.push(
                        CrWrite { index, value, vmx_events_before: self.events.len() as usize },
                    ),
                    ..self
                }
            } else {
                self
            },
            SimOp::Vmxon { region } => SimView {
                events: self.events.push(SimEvent::Vmxon { region }),
                vmx_enabled: self.vmx_enabled || !self.vmxon_fail,
                ..self
            },
            SimOp::Vmptrld { vmcs_pa } => SimView {
                events: self.events.push(SimEvent::Vmptrld { vmcs_pa }),
                vmcs_loaded: self.vmcs_loaded || self.vmx_enabled,
                ..self
            },
            SimOp::Vmwrite { field, value } => if self.vmcs_loaded {
                SimView {
                    events: self.events.push(SimEvent::Vmwrite { field, value }),
                    vmcs: self.vmcs.insert(field, value),
                    ..self
                }
            } else {
                self
            },
            SimOp::Vmread { field } => if self.vmcs_loaded {
                SimView { events: self.events.push(SimEvent::Vmread { field }), ..self }
            } else {
                self
            },
            SimOp::Vmlaunch => self.after_launch(),
        }
    }

    /// The processor state after the operations, in order.
    pub open spec fn apply_all(self, ops: Seq<SimOp>) -> SimView
        decreases ops.len(),
    {
        if ops.len() == 0 {
            self
        } else {
            self.apply_all(ops.drop_last()).apply(ops.last())
        }
    }
}

/// A CPUID leaf keeps the value it was last set to until it is set again or
/// the processor is reset; setting it leaves every other leaf as it was.
pub proof fn lemma_cpuid_persists(v: SimView, leaf: u32, ecx: u32, ops: Seq<SimOp>)
    requires
        forall|i: int| 0 <= i < ops.len() ==> !(#[trigger] ops[i] is Reset) && !ops[i].sets_cpuid(leaf),
    ensures
        ({
            let w = v.apply(SimOp::SetCpuidEcx { leaf, ecx }).apply_all(ops);
            w.cpuid.contains_key(leaf) && w.cpuid[leaf] == ecx
        }),
        forall|l: u32|
            l != leaf ==> (#[trigger] v.apply(SimOp::SetCpuidEcx { leaf, ecx }).cpuid.contains_key(l)
                == v.cpuid.contains_key(l) && v.apply(SimOp::SetCpuidEcx { leaf, ecx }).cpuid[l]
                == v.cpuid[l]),
    decreases ops.len(),
{
    if ops.len() > 0 {
        assert forall|i: int| 0 <= i < ops.drop_last().len() implies !(#[trigger] ops.drop_last()[i] is Reset)
            && !ops.drop_last()[i].sets_cpuid(leaf) by {
            assert(ops.drop_last()[i] == ops[i]);
        }
        lemma_cpuid_persists(v, leaf, ecx, ops.drop_last());
        assert(!(ops[ops.len() - 1] is Reset));
    }
}

/// VMX operation, once entered, lasts until the processor is reset.
pub proof fn lemma_vmx_operation_persists(v: SimView, ops: Seq<SimOp>)
    requires
        v.vmx_enabled,
        forall|i: int| 0 <= i < ops.len() ==> !(#[trigger] ops[i] is Reset),
    ensures
        v.apply_all(ops).vmx_enabled,
    decreases ops.len(),
{
    if ops.len() > 0 {
        assert forall|i: int| 0 <= i < ops.drop_last().len() implies !(#[trigger] ops.drop_last()[i] is Reset) by {
            assert(ops.drop_last()[i] == ops[i]);
        }
        lemma_vmx_operation_persists(v, ops.drop_last());
        assert(!(ops[ops.len() - 1] is Reset));
    }
}

/// A current VMCS stays current until the processor is reset.
pub proof fn lemma_current_vmcs_persists(v: SimView, ops: Seq<SimOp>)
    requires
        v.vmcs_loaded,
        forall|i: int| 0 <= i < ops.len() ==> !(#[trigger] ops[i] is Reset),
    ensures
        v.apply_all(ops).vmcs_loaded,
    decreases ops.len(),
{
    if ops.len() > 0 {
        assert forall|i: int| 0 <= i < ops.drop_last().len() implies !(#[trigger] ops.drop_last()[i] is Reset) by {
            assert(ops.drop_last()[i] == ops[i]);
        }
        lemma_current_vmcs_persists(v, ops.drop_last());
        assert(!(ops[ops.len() - 1] is Reset));
    }
}

/// A VMCS field keeps its value until an operation may change it.
pub proof fn lemma_field_persists(v: SimView, field: u32, ops: Seq<SimOp>)
    requires
        forall|i: int| 0 <= i < ops.len() ==> !(#[trigger] ops[i]).may_write_field(field),
    ensures
        v.apply_all(ops).vmcs_value(field) == v.vmcs_value(field),
    decreases ops.len(),
{
    if ops.len() > 0 {
        assert forall|i: int| 0 <= i < ops.drop_last().len() implies !(#[trigger] ops.drop_last()[i]).may_write_field(field) by {
            assert(ops.drop_last()[i] == ops[i]);
        }
        lemma_field_persists(v, field, ops.drop_last());
        assert(!ops[ops.len() - 1].may_write_field(field));
    }
}

/// With a current VMCS, a `VMREAD` of a field returns its last `VMWRITE`,
/// whatever other fields were written (or read) in between, until a reset.
pub proof fn lemma_read_returns_last_write(
    v: SimView,
    field: u32,
    value: u64,
    ops: Seq<SimOp>,
)
    requires
        v.vmcs_loaded,
        forall|i: int| 0 <= i < ops.len() ==> !(#[trigger] ops[i]).may_write_field(field),
    ensures
        ({
            let w = v.apply(SimOp::Vmwrite { field, value }).apply_all(ops);
            &&& w.vmcs_loaded
            &&& w.vmcs_value(field) == value
        }),
{
    let w0 = v.apply(SimOp::Vmwrite { field, value });
    assert forall|i: int| 0 <= i < ops.len() implies !(#[trigger] ops[i] is Reset) by {
        assert(!ops[i].may_write_field(field));
    }
    lemma_current_vmcs_persists(w0, ops);
    lemma_field_persists(w0, field, ops);
}

/// The MSR values of the simulated processor after reset.
pub open spec fn spec_default_msrs() -> Map<u32, u64> {
    map![
        IA32_VMX_BASIC => 0x0080_0000_0000_001Au64,
        IA32_FEATURE_CONTROL => 0x5u64,
        IA32_VMX_CR0_FIXED0 => 0x1u64,
        IA32_VMX_CR0_FIXED1 => 0xFFFF_FFFF_FFFF_FFFFu64,
        IA32_VMX_CR4_FIXED0 => 0x2000u64,
        IA32_VMX_CR4_FIXED1 => 0xFFFF_FFFF_FFFF_FFFFu64,
        IA32_VMX_PINBASED_CTLS => 0xFFFF_FFFF_0000_0000u64,
        IA32_VMX_PROCBASED_CTLS => 0x8000_0000_0000_0000u64,
        IA32_VMX_PROCBASED_CTLS2 => 0x0000_0002_0000_0000u64,
        IA32_VMX_EXIT_CTLS => 0xFFFF_FFFF_0000_0000u64,
        IA32_VMX_ENTRY_CTLS => 0xFFFF_FFFF_0000_0000u64,
        IA32_EFER => 0x500u64
    ]
}

/// The CPUID leaves of the simulated processor after reset: leaf 1 reports VMX.
pub open spec fn spec_default_cpuid() -> Map<u32, u32> {
    map![1u32 => 0x20u32]
}

/// The captured processor state of the simulated processor after reset.
pub open spec fn spec_default_cpu_state() -> CpuState {
    CpuState {
        cr0: 0x8001_0033,
        cr3: 0x1A000,
        cr4: 0x0000_0200,
        dr7: 0x400,
        rip: 0xFFFF_F000_2000,
        rsp: 0xFFFF_F000_8000,
        rflags: 0x202,
        cs: SegmentState { selector: 0x10, base: 0, limit: 0xFFFF_FFFF, access_rights: 0xA09B },
        ss: SegmentState { selector: 0x18, base: 0, limit: 0xFFFF_FFFF, access_rights: 0xC093 },
        ds: SegmentState { selector: 0x2B, base: 0, limit: 0xFFFF_FFFF, access_rights: 0xC093 },
        es: SegmentState { selector: 0x2B, base: 0, limit: 0xFFFF_FFFF, access_rights: 0xC093 },
        fs: SegmentState { selector: 0x53, base: 0, limit: 0xFFFF_FFFF, access_rights: 0xC093 },
        gs: SegmentState { selector: 0x2B, base: 0, limit: 0xFFFF_FFFF, access_rights: 0xC093 },
        tr: SegmentState { selector: 0x40, base: 0, limit: 0x67, access_rights: 0x008B },
        ldtr: SegmentState { selector: 0, base: 0, limit: 0, access_rights: 0x1_0000 },
        gdtr_base: 0xFFFF_F000_0000,
        gdtr_limit: 0xFFFF,
        idtr_base: 0xFFFF_F000_1000,
        idtr_limit: 0xFFFF,
        efer: 0x500,
    }
}

/// The simulated processor right after reset.
pub open spec fn spec_reset_state() -> SimView {
    SimView {
        msrs: spec_default_msrs(),
        cpuid: spec_default_cpuid(),
        vmcs: Map::empty(),
        cr: seq![0x8001_0033u64, 0u64, 0u64, 0x1A000u64, 0x200u64],
        vmx_enabled: false,
        vmcs_loaded: false,
        vmxon_fail: false,
        vmlaunch_fail: false,
        events: Seq::empty(),
        cr_writes: Seq::empty(),
        cpu: spec_default_cpu_state(),
    }
}

impl SimState {
    /// A freshly reset simulated processor.
    pub fn new() -> (state: Self)
        ensures
            state@ == spec_reset_state(),
    {
        let mut state = SimState {
            msrs: HashMap::new(),
            cpuid: HashMap::new(),
            vmcs: HashMap::new(),
            cr: [0; 5],
            vmx_enabled: false,
            vmcs_loaded: false,
            vmxon_fail: false,
            vmlaunch_fail: false,
            events: Vec::new(),
            cr_writes: Vec::new(),
            cpu: default_cpu_state(),
        };
        state.cr[0] = 0x8001_0033;
        state.cr[3] = 0x1A000;
        state.cr[4] = 0x0000_0200;
        state.apply_vmx_defaults();
        assert(state.cr@ =~= seq![0x8001_0033u64, 0u64, 0u64, 0x1A000u64, 0x200u64]);
        assert(state.msrs@ =~= spec_default_msrs());
        assert(state.cpuid@ =~= spec_default_cpuid());
        state
    }

    /// Installs the VMX-capable defaults: CPUID leaf 1 reports VMX and the VMX
    /// capability MSRs allow the controls the bring-up needs.
    pub fn apply_vmx_defaults(&mut self)
        ensures
            final(self)@ == (SimView {
                msrs: old(self)@.msrs.union_prefer_right(spec_default_msrs()),
                cpuid: old(self)@.cpuid.insert(1, 0x20),
                ..old(self)@
            }),
    {
        self.cpuid.insert(1, 0x20);
        self.msrs.insert(IA32_VMX_BASIC, 0x0080_0000_0000_001A);
        self.msrs.insert(
            IA32_FEATURE_CONTROL,
            FEATURE_CONTROL_LOCKED | FEATURE_CONTROL_VMXON_OUTSIDE_SMX,
        );
        self.msrs.insert(IA32_VMX_CR0_FIXED0, 1);
        self.msrs.insert(IA32_VMX_CR0_FIXED1, u64::MAX);
        self.msrs.insert(IA32_VMX_CR4_FIXED0, 0x2000);
        self.msrs.insert(IA32_VMX_CR4_FIXED1, u64::MAX);
        self.msrs.insert(IA32_VMX_PINBASED_CTLS, 0xFFFF_FFFF_0000_0000);
        self.msrs.insert(IA32_VMX_PROCBASED_CTLS, 0x8000_0000_0000_0000);
        self.msrs.insert(IA32_VMX_PROCBASED_CTLS2, 0x0000_0002_0000_0000);
        self.msrs.insert(IA32_VMX_EXIT_CTLS, 0xFFFF_FFFF_0000_0000);
        self.msrs.insert(IA32_VMX_ENTRY_CTLS, 0xFFFF_FFFF_0000_0000);
        self.msrs.insert(IA32_EFER, 0x500);
        assert(FEATURE_CONTROL_LOCKED | FEATURE_CONTROL_VMXON_OUTSIDE_SMX == 5) by (bit_vector);
        assert(self.msrs@ =~= old(self)@.msrs.union_prefer_right(spec_default_msrs()));
    }
}

/// Resets the simulated processor.
pub fn reset(sim: &mut SimState)
    ensures
        final(sim)@ == spec_reset_state(),
        final(sim)@ == old(sim)@.apply(SimOp::Reset),
{
    *sim = SimState::new();
}

/// Sets an MSR of the simulated processor.
pub fn set_msr(sim: &mut SimState, msr: u32, value: u64)
    ensures
        final(sim)@ == (SimView { msrs: old(sim)@.msrs.insert(msr, value), ..old(sim)@ }),
        final(sim)@ == old(sim)@.apply(SimOp::SetMsr { msr, value }),
{
    sim.msrs.insert(msr, value);
}

/// Sets the ECX result of a CPUID leaf of the simulated processor.
pub fn set_cpuid_ecx(sim: &mut SimState, leaf: u32, ecx: u32)
    ensures
        final(sim)@ == (SimView { cpuid: old(sim)@.cpuid.insert(leaf, ecx), ..old(sim)@ }),
        final(sim)@ == old(sim)@.apply(SimOp::SetCpuidEcx { leaf, ecx }),
{
    sim.cpuid.insert(leaf, ecx);
}

/// Makes the next `VMXON` fail (or succeed again).
pub fn set_vmxon_fail(sim: &mut SimState, fail: bool)
    ensures
        final(sim)@ == (SimView { vmxon_fail: fail, ..old(sim)@ }),
        final(sim)@ == old(sim)@.apply(SimOp::SetVmxonFail { fail }),
{
    sim.vmxon_fail = fail;
}

/// Makes the next `VMLAUNCH` fail (or succeed again).
pub fn set_vmlaunch_fail(sim: &mut SimState, fail: bool)
    ensures
        final(sim)@ == (SimView { vmlaunch_fail: fail, ..old(sim)@ }),
        final(sim)@ == old(sim)@.apply(SimOp::SetVmlaunchFail { fail }),
{
    sim.vmlaunch_fail = fail;
}

/// The simulated ECX result of a CPUID leaf, if the leaf is simulated.
pub fn cpuid_ecx(sim: &SimState, leaf: u32) -> (ecx: Option<u32>)
    ensures
        ecx == (if sim@.cpuid.contains_key(leaf) {
            Some(sim@.cpuid[leaf])
        } else {
            None
        }),
{
    match sim.cpuid.get(&leaf) {
        Some(v) => Some(*v),
        None => None,
    }
}

/// Reads an MSR of the simulated processor (0 when never set).
pub fn read_msr(sim: &SimState, msr: u32) -> (value: u64)
    ensures
        value == sim@.msr(msr),
{
    match sim.msrs.get(&msr) {
        Some(v) => *v,
        None => 0,
    }
}

/// Reads control register `index` of the simulated processor (0 beyond CR4).
pub fn read_cr(sim: &SimState, index: usize) -> (value: u64)
    ensures
        value == sim@.cr_value(index as int),
{
    if index < 5 {
        sim.cr[index]
    } else {
        0
    }
}

/// Writes control register `index` of the simulated processor and records the
/// write in `cr_writes`, apart from the log of VMX instructions, which it
/// leaves alone (ignored beyond CR4).
pub fn write_cr(sim: &mut SimState, index: usize, value: u64)
    ensures
        final(sim)@ == (if index < 5 {
            SimView {
                cr: old(sim)@.cr.update(index as int, value),
                cr_writes: old(sim)@.cr_writes.push(
                    CrWrite {
                        index,
                        value,
                        vmx_events_before: old(sim)@.events.len() as usize,
                    },
                ),
                ..old(sim)@
            }
        } else {
            old(sim)@
        }),
        final(sim)@ == old(sim)@.apply(SimOp::WriteCr { index, value }),
{
    if index < 5 {
        sim.cr[index] = value;
        let vmx_events_before = sim.events.len();
        sim.cr_writes.push(CrWrite { index, value, vmx_events_before });
    }
}

/// Simulated `VMXON`: recorded, and enters VMX operation unless a failure is injected.
pub fn vmxon(sim: &mut SimState, region: u64) -> (ok: bool)
    ensures
        ok == !old(sim)@.vmxon_fail,
        final(sim)@ == (SimView {
            events: old(sim)@.events.push(SimEvent::Vmxon { region }),
            vmx_enabled: old(sim)@.vmx_enabled || !old(sim)@.vmxon_fail,
            ..old(sim)@
        }),
        final(sim)@ == old(sim)@.apply(SimOp::Vmxon { region }),
{
    sim.events.push(SimEvent::Vmxon { region });
    if sim.vmxon_fail {
        return false;
    }
    sim.vmx_enabled = true;
    true
}

/// Simulated `VMPTRLD`: recorded, and makes a VMCS current only in VMX operation.
pub fn vmptrld(sim: &mut SimState, vmcs_pa: u64) -> (ok: bool)
    ensures
        ok == old(sim)@.vmx_enabled,
        final(sim)@ == (SimView {
            events: old(sim)@.events.push(SimEvent::Vmptrld { vmcs_pa }),
            vmcs_loaded: old(sim)@.vmcs_loaded || old(sim)@.vmx_enabled,
            ..old(sim)@
        }),
        final(sim)@ == old(sim)@.apply(SimOp::Vmptrld { vmcs_pa }),
{
    sim.events.push(SimEvent::Vmptrld { vmcs_pa });
    if !sim.vmx_enabled {
        return false;
    }
    sim.vmcs_loaded = true;
    true
}

/// Simulated `VMWRITE`: fails without effect when no VMCS is current;
/// otherwise recorded and stored.
pub fn vmwrite(sim: &mut SimState, field: u32, value: u64) -> (r: Result<(), VmcsError>)
    ensures
        old(sim)@.vmcs_loaded ==> r is Ok && final(sim)@ == (SimView {
            events: old(sim)@.events.push(SimEvent::Vmwrite { field, value }),
            vmcs: old(sim)@.vmcs.insert(field, value),
            ..old(sim)@
        }),
        !old(sim)@.vmcs_loaded ==> r == Err::<(), VmcsError>(VmcsError::VmwriteFailed)
            && final(sim)@ == old(sim)@,
        final(sim)@ == old(sim)@.apply(SimOp::Vmwrite { field, value }),
{
    if !sim.vmcs_loaded {
        return Err(VmcsError::VmwriteFailed);
    }
    sim.events.push(SimEvent::Vmwrite { field, value });
    sim.vmcs.insert(field, value);
    Ok(())
}

/// Simulated `VMREAD`: fails without effect when no VMCS is current;
/// otherwise recorded, and a field never written reads as 0.
pub fn vmread(sim: &mut SimState, field: u32) -> (r: Result<u64, VmcsError>)
    ensures
        old(sim)@.vmcs_loaded ==> r == Ok::<u64, VmcsError>(old(sim)@.vmcs_value(field))
            && final(sim)@ == (SimView {
            events: old(sim)@.events.push(SimEvent::Vmread { field }),
            ..old(sim)@
        }),
        !old(sim)@.vmcs_loaded ==> r == Err::<u64, VmcsError>(VmcsError::VmreadFailed)
            && final(sim)@ == old(sim)@,
        final(sim)@ == old(sim)@.apply(SimOp::Vmread { field }),
{
    if !sim.vmcs_loaded {
        return Err(VmcsError::VmreadFailed);
    }
    sim.events.push(SimEvent::Vmread { field });
    match sim.vmcs.get(&field) {
        Some(v) => Ok(*v),
        None => Ok(0),
    }
}

/// Simulated `VMLAUNCH`: recorded; succeeds when VMX is on, a VMCS is current,
/// no failure is injected and every required field is written and nonzero.
/// A failure stores its error number in the VM-instruction error field.
pub fn vmlaunch(sim: &mut SimState) -> (r: Result<(), VmxLaunchError>)
    ensures
        final(sim)@ == old(sim)@.after_launch(),
        final(sim)@ == old(sim)@.apply(SimOp::Vmlaunch),
        r == (if old(sim)@.launch_succeeds() {
            Ok::<(), VmxLaunchError>(())
        } else {
            Err(VmxLaunchError::VmlaunchFailed(old(sim)@.launch_error_number()))
        }),
{
    sim.events.push(SimEvent::Vmlaunch);
    if sim.vmlaunch_fail || !sim.vmx_enabled || !sim.vmcs_loaded {
        sim.vmcs.insert(encoding::VM_INSTRUCTION_ERROR, 11);
        return Err(VmxLaunchError::VmlaunchFailed(11));
    }
    let required: [u32; 7] = [
        encoding::GUEST_RIP,
        encoding::GUEST_RSP,
        encoding::HOST_RIP,
        encoding::HOST_RSP,
        encoding::EPT_POINTER,
        encoding::CPU_BASED_VM_EXEC_CONTROL,
        encoding::SECONDARY_VM_EXEC_CONTROL,
    ];
    let ghost pre = sim@;
    let mut i: usize = 0;
    while i < 7
        invariant
            0 <= i <= 7,
            sim@ == pre,
            pre == (SimView { events: old(sim)@.events.push(SimEvent::Vmlaunch), ..old(sim)@ }),
            !pre.vmlaunch_fail && pre.vmx_enabled && pre.vmcs_loaded,
            required@ == seq![
                encoding::GUEST_RIP,
                encoding::GUEST_RSP,
                encoding::HOST_RIP,
                encoding::HOST_RSP,
                encoding::EPT_POINTER,
                encoding::CPU_BASED_VM_EXEC_CONTROL,
                encoding::SECONDARY_VM_EXEC_CONTROL,
            ],
            forall|j: int| 0 <= j < i ==> #[trigger] pre.field_ready(required@[j]),
        decreases 7 - i,
    {
        let field = required[i];
        let ready = match sim.vmcs.get(&field) {
            Some(v) => *v != 0,
            None => false,
        };
        if !ready {
            sim.vmcs.insert(encoding::VM_INSTRUCTION_ERROR, 7);
            return Err(VmxLaunchError::VmlaunchFailed(7));
        }
        i = i + 1;
    }
    assert(pre.field_ready(required@[0]));
    assert(pre.field_ready(required@[1]));
    assert(pre.field_ready(required@[2]));
    assert(pre.field_ready(required@[3]));
    assert(pre.field_ready(required@[4]));
    assert(pre.field_ready(required@[5]));
    assert(pre.field_ready(required@[6]));
    Ok(())
}

/// The processor state of the simulated processor.
pub fn cpu_state(sim: &SimState) -> (state: CpuState)
    ensures
        state == sim@.cpu,
{
    sim.cpu
}

/// The VMX instructions executed so far, oldest first.
pub fn events(sim: &SimState) -> (log: Vec<SimEvent>)
    ensures
        log@ == sim@.events,
{
    let mut log: Vec<SimEvent> = Vec::new();
    let mut i: usize = 0;
    while i < sim.events.len()
        invariant
            0 <= i <= sim.events.len(),
            log@ == sim@.events.take(i as int),
        decreases sim.events.len() - i,
    {
        log.push(sim.events[i]);
        i = i + 1;
        assert(log@ =~= sim@.events.take(i as int));
    }
    assert(sim@.events.take(i as int) =~= sim@.events);
    log
}

/// The value of a VMCS field (0 when never written), without recording a `VMREAD`.
pub fn vmcs_field(sim: &SimState, field: u32) -> (value: u64)
    ensures
        value == sim@.vmcs_value(field),
{
    match sim.vmcs.get(&field) {
        Some(v) => *v,
        None => 0,
    }
}

/// The captured processor state of the simulated processor after reset.
pub fn default_cpu_state() -> (state: CpuState)
    ensures
        state == spec_default_cpu_state(),
{
    CpuState {
        cr0: 0x8001_0033,
        cr3: 0x1A000,
        cr4: 0x0000_0200,
        dr7: 0x400,
        rip: 0xFFFF_F000_2000,
        rsp: 0xFFFF_F000_8000,
        rflags: 0x202,
        cs: SegmentState { selector: 0x10, base: 0, limit: 0xFFFF_FFFF, access_rights: 0xA09B },
        ss: SegmentState { selector: 0x18, base: 0, limit: 0xFFFF_FFFF, access_rights: 0xC093 },
        ds: SegmentState { selector: 0x2B, base: 0, limit: 0xFFFF_FFFF, access_rights: 0xC093 },
        es: SegmentState { selector: 0x2B, base: 0, limit: 0xFFFF_FFFF, access_rights: 0xC093 },
        fs: SegmentState { selector: 0x53, base: 0, limit: 0xFFFF_FFFF, access_rights: 0xC093 },
        gs: SegmentState { selector: 0x2B, base: 0, limit: 0xFFFF_FFFF, access_rights: 0xC093 },
        tr: SegmentState { selector: 0x40, base: 0, limit: 0x67, access_rights: 0x008B },
        ldtr: SegmentState { selector: 0, base: 0, limit: 0, access_rights: 0x1_0000 },
        gdtr_base: 0xFFFF_F000_0000,
        gdtr_limit: 0xFFFF,
        idtr_base: 0xFFFF_F000_1000,
        idtr_limit: 0xFFFF,
        efer: 0x500,
    }
}

} // verus!
