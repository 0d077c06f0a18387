//! The bring-up as a state machine: each step takes the outcome of the
//! previous processor action and decides the next one. Any processor can run
//! it: the simulated one (`execute_on_sim`) or real hardware.
use vstd::prelude::*;

use super::ept::{identity_map_ept, spec_eptp, spec_holds_identity_map, EptPointer};
use super::init::{spec_revision_written, CR4_VMXE, VMX_BASIC_64BIT};
use super::memory::{
    spec_addresses_aligned, spec_host_stack_top, RegionAddresses, VmxMemory, HOST_STACK_SIZE,
};
use super::msr::{
    lemma_adjust_vmx_control, lemma_fixed_bits_keep_allowed, spec_adjust_vmx_control,
    spec_control_allowed, spec_apply_fixed_bits,
    spec_keeps_allowed_bits, vmx_revision_id, FEATURE_CONTROL_LOCKED,
    FEATURE_CONTROL_VMXON_OUTSIDE_SMX, IA32_FEATURE_CONTROL, IA32_VMX_BASIC,
    IA32_VMX_CR0_FIXED0, IA32_VMX_CR0_FIXED1, IA32_VMX_CR4_FIXED0, IA32_VMX_CR4_FIXED1,
    IA32_VMX_ENTRY_CTLS, IA32_VMX_EXIT_CTLS, IA32_VMX_PINBASED_CTLS, IA32_VMX_PROCBASED_CTLS,
    IA32_VMX_PROCBASED_CTLS2, VMX_PROCBASED2_ENABLE_EPT, VMX_PROCBASED_USE_SECONDARY,
};
use super::state::{spec_guest_state_writes, spec_host_state_writes, state_writes, CpuState};
use super::vmcs::encoding;
use crate::{check_vmx_support_from_ecx, spec_vmx_bit, STATUS_NOT_SUPPORTED, STATUS_SUCCESS, STATUS_UNSUCCESSFUL};

verus! {

/// A processor action the bring-up asks for.
#[derive(Debug, Clone, Copy, PartialEq, Eq)]
pub enum Action {
    ReadCpuidEcx { leaf: u32 },
    ReadMsr { msr: u32 },
    ReadCr { index: usize },
    WriteCr { index: usize, value: u64 },
    Vmxon { region: u64 },
    Vmptrld { vmcs_pa: u64 },
    Vmwrite { field: u32, value: u64 },
    Vmread { field: u32 },
    CaptureCpuState,
    Vmlaunch,
    /// The bring-up is over, with this NTSTATUS.
    Finish { status: i32 },
}

/// The outcome of the previous action.
#[derive(Debug, Clone, Copy, PartialEq, Eq)]
pub enum Event {
    /// No action has run yet.
    Start,
    /// The value a read returned.
    Value(u64),
    /// Whether an instruction succeeded.
    Status(bool),
    /// The captured processor state.
    Cpu(CpuState),
}

/// Where the bring-up stands: the outcome of which action it waits for.
#[derive(Debug, Clone, Copy, PartialEq, Eq)]
pub enum Phase {
    Start,
    CheckCpuid,
    CheckBasic,
    CheckFeatureControl,
    ReadCr0,
    ReadCr4,
    ReadCr0Fixed0,
    ReadCr0Fixed1,
    ReadCr4Fixed0,
    ReadCr4Fixed1,
    WriteCr0,
    WriteCr4,
    EnterVmx,
    LoadVmcs,
    WriteLink,
    WriteEpt,
    ReadCaps,
    WriteControls,
    Capture,
    WriteState,
    Launch,
    ReadError,
    Finished,
}

/// The bring-up state machine.
pub struct BringUp {
    pub phase: Phase,
    pub addresses: RegionAddresses,
    pub exit_handler: u64,
    pub cr0: u64,
    pub cr4: u64,
    pub fixed0: u64,
    pub adjusted_cr0: u64,
    pub adjusted_cr4: u64,
    pub caps: Vec<u64>,
    pub writes: Vec<(u32, u64)>,
    pub next: usize,
    pub status: i32,
}

/// Mathematical model of the bring-up state machine.
pub struct BringUpView {
    pub phase: Phase,
    pub addresses: RegionAddresses,
    pub exit_handler: u64,
    pub cr0: u64,
    pub cr4: u64,
    pub fixed0: u64,
    pub adjusted_cr0: u64,
    pub adjusted_cr4: u64,
    pub caps: Seq<u64>,
    pub writes: Seq<(u32, u64)>,
    pub next: nat,
    pub status: i32,
}

impl View for BringUp {
    type V = BringUpView;

    open spec fn view(&self) -> BringUpView {
        BringUpView {
            phase: self.phase,
            addresses: self.addresses,
            exit_handler: self.exit_handler,
            cr0: self.cr0,
            cr4: self.cr4,
            fixed0: self.fixed0,
            adjusted_cr0: self.adjusted_cr0,
            adjusted_cr4: self.adjusted_cr4,
            caps: self.caps@,
            writes: self.writes@,
            next: self.next as nat,
            status: self.status,
        }
    }
}

/// The capability MSR of execution control `i`: pin-based, primary, secondary, exit, entry.
pub open spec fn spec_cap_msr(i: int) -> u32 {
    if i == 0 {
        IA32_VMX_PINBASED_CTLS
    } else if i == 1 {
        IA32_VMX_PROCBASED_CTLS
    } else if i == 2 {
        IA32_VMX_PROCBASED_CTLS2
    } else if i == 3 {
        IA32_VMX_EXIT_CTLS
    } else {
        IA32_VMX_ENTRY_CTLS
    }
}

/// The execution-control writes for the five capability MSR values, each
/// control adjusted to its capability (secondary controls and EPT requested).
pub open spec fn spec_control_write_list(caps: Seq<u64>) -> Seq<(u32, u64)> {
    seq![
        (encoding::PIN_BASED_VM_EXEC_CONTROL, spec_adjust_vmx_control(0, caps[0])),
        (
            encoding::CPU_BASED_VM_EXEC_CONTROL,
            spec_adjust_vmx_control(VMX_PROCBASED_USE_SECONDARY, caps[1]),
        ),
        (
            encoding::SECONDARY_VM_EXEC_CONTROL,
            spec_adjust_vmx_control(VMX_PROCBASED2_ENABLE_EPT, caps[2]),
        ),
        (encoding::VM_EXIT_CONTROLS, spec_adjust_vmx_control(0, caps[3])),
        (encoding::VM_ENTRY_CONTROLS, spec_adjust_vmx_control(0, caps[4])),
    ]
}

/// With `caps[i]` the value read from capability MSR `spec_cap_msr(i)`, each
/// execution control is written to its own field, adjusted to the value read
/// from its own capability MSR: every must-be-1 bit set and no bit set that
/// the MSR does not allow.
pub proof fn lemma_control_writes_use_their_capabilities(caps: Seq<u64>)
    requires
        caps.len() == CONTROL_WRITE_COUNT,
    ensures
        spec_control_write_list(caps).len() == CONTROL_WRITE_COUNT,
        spec_cap_msr(0) == IA32_VMX_PINBASED_CTLS,
        spec_control_write_list(caps)[0] == (encoding::PIN_BASED_VM_EXEC_CONTROL, spec_adjust_vmx_control(0, caps[0])),
        spec_control_allowed(spec_control_write_list(caps)[0].1, caps[0]),
        spec_cap_msr(1) == IA32_VMX_PROCBASED_CTLS,
        spec_control_write_list(caps)[1] == (encoding::CPU_BASED_VM_EXEC_CONTROL, spec_adjust_vmx_control(VMX_PROCBASED_USE_SECONDARY, caps[1])),
        spec_control_allowed(spec_control_write_list(caps)[1].1, caps[1]),
        spec_cap_msr(2) == IA32_VMX_PROCBASED_CTLS2,
        spec_control_write_list(caps)[2] == (encoding::SECONDARY_VM_EXEC_CONTROL, spec_adjust_vmx_control(VMX_PROCBASED2_ENABLE_EPT, caps[2])),
        spec_control_allowed(spec_control_write_list(caps)[2].1, caps[2]),
        spec_cap_msr(3) == IA32_VMX_EXIT_CTLS,
        spec_control_write_list(caps)[3] == (encoding::VM_EXIT_CONTROLS, spec_adjust_vmx_control(0, caps[3])),
        spec_control_allowed(spec_control_write_list(caps)[3].1, caps[3]),
        spec_cap_msr(4) == IA32_VMX_ENTRY_CTLS,
        spec_control_write_list(caps)[4] == (encoding::VM_ENTRY_CONTROLS, spec_adjust_vmx_control(0, caps[4])),
        spec_control_allowed(spec_control_write_list(caps)[4].1, caps[4]),
{
    lemma_adjust_vmx_control(0, caps[0]);
    lemma_adjust_vmx_control(VMX_PROCBASED_USE_SECONDARY, caps[1]);
    lemma_adjust_vmx_control(VMX_PROCBASED2_ENABLE_EPT, caps[2]);
    lemma_adjust_vmx_control(0, caps[3]);
    lemma_adjust_vmx_control(0, caps[4]);
}

/// Number of guest-area and host-area writes.
pub const STATE_WRITE_COUNT: usize = 63;

/// Number of execution-control writes.
pub const CONTROL_WRITE_COUNT: usize = 5;

/// The machine after finishing with `status`.
pub open spec fn spec_finish(m: BringUpView, status: i32) -> (BringUpView, Action) {
    (BringUpView { phase: Phase::Finished, status, ..m }, Action::Finish { status })
}

/// The value a read returned, if the event is one.
pub open spec fn spec_event_value(e: Event) -> Option<u64> {
    match e {
        Event::Value(x) => Some(x),
        _ => None,
    }
}

/// The next state and action, given the outcome of the previous action.
/// Every check that fails, every instruction that fails before `VMLAUNCH` and
/// every outcome of the wrong kind ends the bring-up with "not supported"; a
/// failed `VMLAUNCH` reads the VM-instruction error and ends it with
/// "unsuccessful"; a successful one ends it with success.
pub open spec fn spec_step(m: BringUpView, e: Event) -> (BringUpView, Action) {
    let ok = e == Event::Status(true);
    match m.phase {
        Phase::Start => (
            BringUpView { phase: Phase::CheckCpuid, ..m },
            Action::ReadCpuidEcx { leaf: 1 },
        ),
        Phase::CheckCpuid => match e {
            Event::Value(ecx) => if spec_vmx_bit(ecx as u32) {
                (
                    BringUpView { phase: Phase::CheckBasic, ..m },
                    Action::ReadMsr { msr: IA32_VMX_BASIC },
                )
            } else {
                spec_finish(m, STATUS_NOT_SUPPORTED)
            },
            _ => spec_finish(m, STATUS_NOT_SUPPORTED),
        },
        Phase::CheckBasic => match e {
            Event::Value(basic) => if basic & VMX_BASIC_64BIT != 0 {
                (
                    BringUpView { phase: Phase::CheckFeatureControl, ..m },
                    Action::ReadMsr { msr: IA32_FEATURE_CONTROL },
                )
            } else {
                spec_finish(m, STATUS_NOT_SUPPORTED)
            },
            _ => spec_finish(m, STATUS_NOT_SUPPORTED),
        },
        Phase::CheckFeatureControl => match e {
            Event::Value(fc) => if fc & FEATURE_CONTROL_LOCKED != 0 && fc
                & FEATURE_CONTROL_VMXON_OUTSIDE_SMX != 0 {
                (BringUpView { phase: Phase::ReadCr0, ..m }, Action::ReadCr { index: 0 })
            } else {
                spec_finish(m, STATUS_NOT_SUPPORTED)
            },
            _ => spec_finish(m, STATUS_NOT_SUPPORTED),
        },
        Phase::ReadCr0 => match e {
            Event::Value(x) => (
                BringUpView { phase: Phase::ReadCr4, cr0: x, ..m },
                Action::ReadCr { index: 4 },
            ),
            _ => spec_finish(m, STATUS_NOT_SUPPORTED),
        },
        Phase::ReadCr4 => match e {
            Event::Value(x) => (
                BringUpView { phase: Phase::ReadCr0Fixed0, cr4: x, ..m },
                Action::ReadMsr { msr: IA32_VMX_CR0_FIXED0 },
            ),
            _ => spec_finish(m, STATUS_NOT_SUPPORTED),
        },
        Phase::ReadCr0Fixed0 => match e {
            Event::Value(x) => (
                BringUpView { phase: Phase::ReadCr0Fixed1, fixed0: x, ..m },
                Action::ReadMsr { msr: IA32_VMX_CR0_FIXED1 },
            ),
            _ => spec_finish(m, STATUS_NOT_SUPPORTED),
        },
        Phase::ReadCr0Fixed1 => match e {
            Event::Value(x) => (
                BringUpView {
                    phase: Phase::ReadCr4Fixed0,
                    adjusted_cr0: spec_apply_fixed_bits(m.cr0, m.fixed0, x),
                    ..m
                },
                Action::ReadMsr { msr: IA32_VMX_CR4_FIXED0 },
            ),
            _ => spec_finish(m, STATUS_NOT_SUPPORTED),
        },
        Phase::ReadCr4Fixed0 => match e {
            Event::Value(x) => (
                BringUpView { phase: Phase::ReadCr4Fixed1, fixed0: x, ..m },
                Action::ReadMsr { msr: IA32_VMX_CR4_FIXED1 },
            ),
            _ => spec_finish(m, STATUS_NOT_SUPPORTED),
        },
        Phase::ReadCr4Fixed1 => match e {
            Event::Value(x) => (
                BringUpView {
                    phase: Phase::WriteCr0,
                    adjusted_cr4: spec_apply_fixed_bits(m.cr4 | CR4_VMXE, m.fixed0, x),
                    ..m
                },
                Action::WriteCr { index: 0, value: m.adjusted_cr0 },
            ),
            _ => spec_finish(m, STATUS_NOT_SUPPORTED),
        },
        Phase::WriteCr0 => if ok {
            (
                BringUpView { phase: Phase::WriteCr4, ..m },
                Action::WriteCr { index: 4, value: m.adjusted_cr4 },
            )
        } else {
            spec_finish(m, STATUS_NOT_SUPPORTED)
        },
        Phase::WriteCr4 => if ok {
            (
                BringUpView { phase: Phase::EnterVmx, ..m },
                Action::Vmxon { region: m.addresses.vmxon },
            )
        } else {
            spec_finish(m, STATUS_NOT_SUPPORTED)
        },
        Phase::EnterVmx => if ok {
            (
                BringUpView { phase: Phase::LoadVmcs, ..m },
                Action::Vmptrld { vmcs_pa: m.addresses.vmcs },
            )
        } else {
            spec_finish(m, STATUS_NOT_SUPPORTED)
        },
        Phase::LoadVmcs => if ok {
            (
                BringUpView { phase: Phase::WriteLink, ..m },
                Action::Vmwrite { field: encoding::VMCS_LINK_POINTER, value: 0xFFFF_FFFF_FFFF_FFFF },
            )
        } else {
            spec_finish(m, STATUS_NOT_SUPPORTED)
        },
        Phase::WriteLink => if ok {
            (
                BringUpView { phase: Phase::WriteEpt, ..m },
                Action::Vmwrite {
                    field: encoding::EPT_POINTER,
                    value: spec_eptp(m.addresses.ept_pml4),
                },
            )
        } else {
            spec_finish(m, STATUS_NOT_SUPPORTED)
        },
        Phase::WriteEpt => if ok {
            (
                BringUpView { phase: Phase::ReadCaps, caps: Seq::empty(), ..m },
                Action::ReadMsr { msr: spec_cap_msr(0) },
            )
        } else {
            spec_finish(m, STATUS_NOT_SUPPORTED)
        },
        Phase::ReadCaps => match e {
            Event::Value(x) => if m.caps.len() + 1 < CONTROL_WRITE_COUNT {
                (
                    BringUpView { caps: m.caps.push(x), ..m },
                    Action::ReadMsr { msr: spec_cap_msr(m.caps.len() + 1int) },
                )
            } else {
                let writes = spec_control_write_list(m.caps.push(x));
                (
                    BringUpView {
                        phase: Phase::WriteControls,
                        caps: m.caps.push(x),
                        writes,
                        next: 0,
                        ..m
                    },
                    Action::Vmwrite { field: writes[0].0, value: writes[0].1 },
                )
            },
            _ => spec_finish(m, STATUS_NOT_SUPPORTED),
        },
        Phase::WriteControls => if !ok {
            spec_finish(m, STATUS_NOT_SUPPORTED)
        } else if m.next + 1 < CONTROL_WRITE_COUNT {
            (
                BringUpView { next: m.next + 1, ..m },
                Action::Vmwrite {
                    field: m.writes[(m.next + 1) as int].0,
                    value: m.writes[(m.next + 1) as int].1,
                },
            )
        } else {
            (BringUpView { phase: Phase::Capture, ..m }, Action::CaptureCpuState)
        },
        Phase::Capture => match e {
            Event::Cpu(cpu) => {
                let writes = spec_guest_state_writes(cpu) + spec_host_state_writes(
                    cpu,
                    m.exit_handler,
                    spec_host_stack_top(m.addresses),
                );
                (
                    BringUpView { phase: Phase::WriteState, writes, next: 0, ..m },
                    Action::Vmwrite { field: writes[0].0, value: writes[0].1 },
                )
            },
            _ => spec_finish(m, STATUS_NOT_SUPPORTED),
        },
        Phase::WriteState => if !ok {
            spec_finish(m, STATUS_NOT_SUPPORTED)
        } else if m.next + 1 < STATE_WRITE_COUNT {
            (
                BringUpView { next: m.next + 1, ..m },
                Action::Vmwrite {
                    field: m.writes[(m.next + 1) as int].0,
                    value: m.writes[(m.next + 1) as int].1,
                },
            )
        } else {
            (BringUpView { phase: Phase::Launch, ..m }, Action::Vmlaunch)
        },
        Phase::Launch => if ok {
            spec_finish(m, STATUS_SUCCESS)
        } else {
            (
                BringUpView { phase: Phase::ReadError, ..m },
                Action::Vmread { field: encoding::VM_INSTRUCTION_ERROR },
            )
        },
        Phase::ReadError => spec_finish(m, STATUS_UNSUCCESSFUL),
        Phase::Finished => (m, Action::Finish { status: m.status }),
    }
}

/// The actions the machine asks for when it is handed `events` in turn.
pub open spec fn spec_actions(m: BringUpView, events: Seq<Event>) -> Seq<Action>
    decreases events.len(),
{
    if events.len() == 0 {
        Seq::empty()
    } else {
        seq![spec_step(m, events[0]).1] + spec_actions(spec_step(m, events[0]).0, events.drop_first())
    }
}

/// `VMXON` is asked for only right after a CR0 write and a CR4 write that
/// both succeeded, counted from the state `m`.
proof fn lemma_vmxon_after_cr_writes_from(m: BringUpView, events: Seq<Event>)
    ensures
        spec_actions(m, events).len() == events.len(),
        forall|i: int|
            0 <= i < events.len() && #[trigger] spec_actions(m, events)[i] is Vmxon ==> {
                &&& i >= 2 ==> {
                    &&& spec_actions(m, events)[i - 1] matches Action::WriteCr { index: 4, .. }
                    &&& spec_actions(m, events)[i - 2] matches Action::WriteCr { index: 0, .. }
                    &&& events[i] == Event::Status(true)
                    &&& events[i - 1] == Event::Status(true)
                }
                &&& i == 1 ==> {
                    &&& m.phase == Phase::WriteCr0
                    &&& spec_actions(m, events)[0] matches Action::WriteCr { index: 4, .. }
                    &&& events[1] == Event::Status(true)
                    &&& events[0] == Event::Status(true)
                }
                &&& i == 0 ==> m.phase == Phase::WriteCr4 && events[0] == Event::Status(true)
            },
    decreases events.len(),
{
    if events.len() > 0 {
        let (next, first) = spec_step(m, events[0]);
        let rest = events.drop_first();
        lemma_vmxon_after_cr_writes_from(next, rest);
        let actions = spec_actions(m, events);
        assert(actions == seq![first] + spec_actions(next, rest));
        assert forall|i: int|
            0 <= i < events.len() && #[trigger] actions[i] is Vmxon implies {
                &&& i >= 2 ==> {
                    &&& actions[i - 1] matches Action::WriteCr { index: 4, .. }
                    &&& actions[i - 2] matches Action::WriteCr { index: 0, .. }
                    &&& events[i] == Event::Status(true)
                    &&& events[i - 1] == Event::Status(true)
                }
                &&& i == 1 ==> {
                    &&& m.phase == Phase::WriteCr0
                    &&& actions[0] matches Action::WriteCr { index: 4, .. }
                    &&& events[1] == Event::Status(true)
                    &&& events[0] == Event::Status(true)
                }
                &&& i == 0 ==> m.phase == Phase::WriteCr4 && events[0] == Event::Status(true)
            } by {
            if i >= 1 {
                assert(actions[i] == spec_actions(next, rest)[i - 1]);
                assert(events[i] == rest[i - 1]);
                if i >= 2 {
                    assert(events[i - 1] == rest[i - 2]);
                    assert(actions[i - 1] == spec_actions(next, rest)[i - 2]);
                }
                if i >= 3 {
                    assert(actions[i - 2] == spec_actions(next, rest)[i - 3]);
                }
            }
        }
    }
}

/// In every run of a new machine, whatever the outcomes handed to it,
/// `VMXON` comes only right after the write of CR0 and then the write of CR4,
/// and only when both writes succeeded.
pub proof fn lemma_vmxon_after_cr_writes(m: BringUpView, events: Seq<Event>, i: int)
    requires
        m.phase == Phase::Start,
        0 <= i < events.len(),
        spec_actions(m, events)[i] is Vmxon,
    ensures
        i >= 2,
        spec_actions(m, events)[i - 2] matches Action::WriteCr { index: 0, .. },
        spec_actions(m, events)[i - 1] matches Action::WriteCr { index: 4, .. },
        events[i - 1] == Event::Status(true),
        events[i] == Event::Status(true),
{
    lemma_vmxon_after_cr_writes_from(m, events);
}

/// The CR4 value that the machine writes, right after CR0, has VMXE set
/// whenever the CR4 fixed-1 MSR allows it.
pub proof fn lemma_cr4_write_enables_vmx(m: BringUpView, fixed1: u64)
    requires
        m.phase == Phase::ReadCr4Fixed1,
        fixed1 & CR4_VMXE != 0,
    ensures
        ({
            let (m1, a1) = spec_step(m, Event::Value(fixed1));
            let (m2, a2) = spec_step(m1, Event::Status(true));
            &&& a1 matches Action::WriteCr { index: 0, .. }
            &&& a2 matches Action::WriteCr { index: 4, value } && value & CR4_VMXE != 0
        }),
{
    let cr4 = m.cr4;
    let fixed0 = m.fixed0;
    assert(((cr4 | 0x2000u64) | fixed0) & fixed1 & 0x2000u64 != 0) by (bit_vector)
        requires
            fixed1 & 0x2000u64 != 0,
    ;
}

/// The CR0 value that the machine writes keeps every bit of the CR0 it read
/// that the CR0 fixed-1 MSR allows, sets the allowed must-be-1 bits, and sets
/// nothing else: from reading CR0_FIXED1, through the CR4 fixed-bit reads, to
/// the write of CR0.
pub proof fn lemma_cr0_write_keeps_allowed_bits(
    m: BringUpView,
    cr0_fixed1: u64,
    cr4_fixed0: u64,
    cr4_fixed1: u64,
)
    requires
        m.phase == Phase::ReadCr0Fixed1,
    ensures
        ({
            let (m1, a1) = spec_step(m, Event::Value(cr0_fixed1));
            let (m2, a2) = spec_step(m1, Event::Value(cr4_fixed0));
            let (m3, a3) = spec_step(m2, Event::Value(cr4_fixed1));
            &&& a1 == Action::ReadMsr { msr: IA32_VMX_CR4_FIXED0 }
            &&& a2 == Action::ReadMsr { msr: IA32_VMX_CR4_FIXED1 }
            &&& a3 matches Action::WriteCr { index: 0, value } && spec_keeps_allowed_bits(
                value,
                m.cr0,
                0,
                m.fixed0,
                cr0_fixed1,
            )
        }),
{
    let current = m.cr0;
    assert(current | 0u64 == current) by (bit_vector);
    lemma_fixed_bits_keep_allowed(current, 0, m.fixed0, cr0_fixed1);
}

/// The CR4 value that the machine writes, right after CR0, keeps every bit of
/// the CR4 it read that the CR4 fixed-1 MSR allows, sets VMXE and the
/// must-be-1 bits where allowed, and sets nothing else.
pub proof fn lemma_cr4_write_keeps_allowed_bits(m: BringUpView, cr4_fixed1: u64)
    requires
        m.phase == Phase::ReadCr4Fixed1,
    ensures
        ({
            let (m1, a1) = spec_step(m, Event::Value(cr4_fixed1));
            let (m2, a2) = spec_step(m1, Event::Status(true));
            &&& a1 matches Action::WriteCr { index: 0, .. }
            &&& a2 matches Action::WriteCr { index: 4, value } && spec_keeps_allowed_bits(
                value,
                m.cr4,
                CR4_VMXE,
                m.fixed0,
                cr4_fixed1,
            )
        }),
{
    lemma_fixed_bits_keep_allowed(m.cr4, CR4_VMXE, m.fixed0, cr4_fixed1);
}

/// A run asks for one action per outcome.
proof fn lemma_actions_len(m: BringUpView, events: Seq<Event>)
    ensures
        spec_actions(m, events).len() == events.len(),
    decreases events.len(),
{
    if events.len() > 0 {
        lemma_actions_len(spec_step(m, events[0]).0, events.drop_first());
    }
}

/// A step keeps the machine well formed; a step that does not finish moves
/// it forward, and one that finishes asks for `Finish`.
proof fn lemma_step_advances(m: BringUpView, e: Event)
    requires
        m.wf(),
    ensures
        spec_step(m, e).0.wf(),
        spec_position(m) <= 92,
        m.phase != Phase::Finished ==> spec_position(m) <= 91,
        m.phase != Phase::Finished ==> spec_position(spec_step(m, e).0) > spec_position(m),
        spec_step(m, e).0.phase == Phase::Finished ==> spec_step(m, e).1 is Finish,
{
}

/// Counted from a well-formed state that has not finished, a run asks for
/// `Finish` within `92 - spec_position(m)` actions.
proof fn lemma_run_ends_from(m: BringUpView, events: Seq<Event>)
    requires
        m.wf(),
        m.phase != Phase::Finished,
        events.len() >= 92 - spec_position(m),
    ensures
        exists|i: int| 0 <= i < 92 - spec_position(m) && #[trigger] spec_actions(m, events)[i] is Finish,
    decreases events.len(),
{
    lemma_step_advances(m, events[0]);
    let (next, first) = spec_step(m, events[0]);
    let rest = events.drop_first();
    let actions = spec_actions(m, events);
    assert(actions == seq![first] + spec_actions(next, rest));
    if next.phase == Phase::Finished {
        assert(actions[0] is Finish);
    } else {
        lemma_run_ends_from(next, rest);
        lemma_actions_len(next, rest);
        let j = choose|j: int| 0 <= j < 92 - spec_position(next) && #[trigger] spec_actions(next, rest)[j] is Finish;
        assert(actions[j + 1] == spec_actions(next, rest)[j]);
        assert(actions[j + 1] is Finish);
    }
}

/// Every run of a new machine ends: whatever the outcomes handed to it, one
/// of its first 92 actions is `Finish`.
pub proof fn lemma_run_ends(m: BringUpView, events: Seq<Event>)
    requires
        m.wf(),
        m.phase == Phase::Start,
        events.len() >= 92,
    ensures
        exists|i: int| 0 <= i < 92 && #[trigger] spec_actions(m, events)[i] is Finish,
{
    lemma_run_ends_from(m, events);
}

/// The hypervisor memory around a step: once IA32_VMX_BASIC reports 64-bit
/// VMX, the revision identifier goes into the VMXON region and the VMCS; once
/// the VMCS link pointer is written, the EPT identity map is built; no other
/// step touches memory.
pub open spec fn spec_step_memory(m: BringUpView, e: Event, before: VmxMemory, after: VmxMemory) -> bool {
    if m.phase == Phase::CheckBasic && (e matches Event::Value(basic) && basic & VMX_BASIC_64BIT
        != 0) {
        spec_revision_written(before, after, (spec_event_value(e).unwrap() & 0x7FFF_FFFF) as u32)
    } else if m.phase == Phase::WriteLink && e == Event::Status(true) {
        &&& spec_holds_identity_map(after)
        &&& after.vmxon_region == before.vmxon_region
        &&& after.vmcs_region == before.vmcs_region
        &&& after.host_stack == before.host_stack
        &&& after.addresses == before.addresses
    } else {
        after == before
    }
}

/// Position of the machine along the bring-up; every step that does not
/// finish moves it forward.
pub open spec fn spec_position(m: BringUpView) -> int {
    match m.phase {
        Phase::Start => 0,
        Phase::CheckCpuid => 1,
        Phase::CheckBasic => 2,
        Phase::CheckFeatureControl => 3,
        Phase::ReadCr0 => 4,
        Phase::ReadCr4 => 5,
        Phase::ReadCr0Fixed0 => 6,
        Phase::ReadCr0Fixed1 => 7,
        Phase::ReadCr4Fixed0 => 8,
        Phase::ReadCr4Fixed1 => 9,
        Phase::WriteCr0 => 10,
        Phase::WriteCr4 => 11,
        Phase::EnterVmx => 12,
        Phase::LoadVmcs => 13,
        Phase::WriteLink => 14,
        Phase::WriteEpt => 15,
        Phase::ReadCaps => 16 + m.caps.len() as int,
        Phase::WriteControls => 21 + m.next as int,
        Phase::Capture => 26,
        Phase::WriteState => 27 + m.next as int,
        Phase::Launch => 90,
        Phase::ReadError => 91,
        Phase::Finished => 92,
    }
}

impl BringUpView {
    /// Well-formedness: aligned addresses, and the bookkeeping of the phase
    /// that reads capabilities or writes fields.
    pub open spec fn wf(self) -> bool {
        &&& spec_addresses_aligned(self.addresses)
        &&& (self.phase == Phase::ReadCaps ==> self.caps.len() < CONTROL_WRITE_COUNT)
        &&& (self.phase == Phase::WriteControls ==> self.writes.len() == CONTROL_WRITE_COUNT
            && self.next < CONTROL_WRITE_COUNT)
        &&& (self.phase == Phase::WriteState ==> self.writes.len() == STATE_WRITE_COUNT
            && self.next < STATE_WRITE_COUNT)
    }
}

impl BringUp {
    /// A bring-up that has not started, for regions at `addresses` and the
    /// VM-exit entry point at `exit_handler`.
    pub fn new(addresses: RegionAddresses, exit_handler: u64) -> (machine: Self)
        requires
            spec_addresses_aligned(addresses),
        ensures
            machine@.wf(),
            machine@.phase == Phase::Start,
            machine@.addresses == addresses,
            machine@.exit_handler == exit_handler,
    {
        BringUp {
            phase: Phase::Start,
            addresses,
            exit_handler,
            cr0: 0,
            cr4: 0,
            fixed0: 0,
            adjusted_cr0: 0,
            adjusted_cr4: 0,
            caps: Vec::new(),
            writes: Vec::new(),
            next: 0,
            status: STATUS_NOT_SUPPORTED,
        }
    }

    fn finish(&mut self, status: i32) -> (action: Action)
        ensures
            (final(self)@, action) == spec_finish(old(self)@, status),
    {
        self.phase = Phase::Finished;
        self.status = status;
        Action::Finish { status }
    }

    /// One step: takes the outcome of the previous action, updates the
    /// hypervisor memory where the bring-up writes it, and returns the next action.
    pub fn step(&mut self, mem: &mut VmxMemory, event: Event) -> (action: Action)
        requires
            old(self)@.wf(),
            old(self)@.addresses == old(mem).addresses,
        ensures
            (final(self)@, action) == spec_step(old(self)@, event),
            final(self)@.wf(),
            spec_step_memory(old(self)@, event, *old(mem), *final(mem)),
            old(self)@.phase != Phase::Finished ==> spec_position(final(self)@) > spec_position(
                old(self)@,
            ),
    {
        let ok = matches!(event, Event::Status(true));
        match self.phase {
            Phase::Start => {
                self.phase = Phase::CheckCpuid;
                Action::ReadCpuidEcx { leaf: 1 }
            },
            Phase::CheckCpuid => match event {
                Event::Value(ecx) => if check_vmx_support_from_ecx(ecx as u32) {
                    self.phase = Phase::CheckBasic;
                    Action::ReadMsr { msr: IA32_VMX_BASIC }
                } else {
                    self.finish(STATUS_NOT_SUPPORTED)
                },
                _ => self.finish(STATUS_NOT_SUPPORTED),
            },
            Phase::CheckBasic => match event {
                Event::Value(basic) => if basic & VMX_BASIC_64BIT != 0 {
                    let revision = vmx_revision_id(basic);
                    mem.vmxon_region.set_revision_id(revision);
                    mem.vmcs_region.set_revision_id(revision);
                    self.phase = Phase::CheckFeatureControl;
                    Action::ReadMsr { msr: IA32_FEATURE_CONTROL }
                } else {
                    self.finish(STATUS_NOT_SUPPORTED)
                },
                _ => self.finish(STATUS_NOT_SUPPORTED),
            },
            Phase::CheckFeatureControl => match event {
                Event::Value(fc) => if fc & FEATURE_CONTROL_LOCKED != 0 && fc
                    & FEATURE_CONTROL_VMXON_OUTSIDE_SMX != 0 {
                    self.phase = Phase::ReadCr0;
                    Action::ReadCr { index: 0 }
                } else {
                    self.finish(STATUS_NOT_SUPPORTED)
                },
                _ => self.finish(STATUS_NOT_SUPPORTED),
            },
            Phase::ReadCr0 => match event {
                Event::Value(x) => {
                    self.cr0 = x;
                    self.phase = Phase::ReadCr4;
                    Action::ReadCr { index: 4 }
                },
                _ => self.finish(STATUS_NOT_SUPPORTED),
            },
            Phase::ReadCr4 => match event {
                Event::Value(x) => {
                    self.cr4 = x;
                    self.phase = Phase::ReadCr0Fixed0;
                    Action::ReadMsr { msr: IA32_VMX_CR0_FIXED0 }
                },
                _ => self.finish(STATUS_NOT_SUPPORTED),
            },
            Phase::ReadCr0Fixed0 => match event {
                Event::Value(x) => {
                    self.fixed0 = x;
                    self.phase = Phase::ReadCr0Fixed1;
                    Action::ReadMsr { msr: IA32_VMX_CR0_FIXED1 }
                },
                _ => self.finish(STATUS_NOT_SUPPORTED),
            },
            Phase::ReadCr0Fixed1 => match event {
                Event::Value(x) => {
                    self.adjusted_cr0 = (self.cr0 | self.fixed0) & x;
                    self.phase = Phase::ReadCr4Fixed0;
                    Action::ReadMsr { msr: IA32_VMX_CR4_FIXED0 }
                },
                _ => self.finish(STATUS_NOT_SUPPORTED),
            },
            Phase::ReadCr4Fixed0 => match event {
                Event::Value(x) => {
                    self.fixed0 = x;
                    self.phase = Phase::ReadCr4Fixed1;
                    Action::ReadMsr { msr: IA32_VMX_CR4_FIXED1 }
                },
                _ => self.finish(STATUS_NOT_SUPPORTED),
            },
            Phase::ReadCr4Fixed1 => match event {
                Event::Value(x) => {
                    self.adjusted_cr4 = ((self.cr4 | CR4_VMXE) | self.fixed0) & x;
                    self.phase = Phase::WriteCr0;
                    Action::WriteCr { index: 0, value: self.adjusted_cr0 }
                },
                _ => self.finish(STATUS_NOT_SUPPORTED),
            },
            Phase::WriteCr0 => if ok {
                self.phase = Phase::WriteCr4;
                Action::WriteCr { index: 4, value: self.adjusted_cr4 }
            } else {
                self.finish(STATUS_NOT_SUPPORTED)
            },
            Phase::WriteCr4 => if ok {
                self.phase = Phase::EnterVmx;
                Action::Vmxon { region: self.addresses.vmxon }
            } else {
                self.finish(STATUS_NOT_SUPPORTED)
            },
            Phase::EnterVmx => if ok {
                self.phase = Phase::LoadVmcs;
                Action::Vmptrld { vmcs_pa: self.addresses.vmcs }
            } else {
                self.finish(STATUS_NOT_SUPPORTED)
            },
            Phase::LoadVmcs => if ok {
                self.phase = Phase::WriteLink;
                Action::Vmwrite { field: encoding::VMCS_LINK_POINTER, value: 0xFFFF_FFFF_FFFF_FFFF }
            } else {
                self.finish(STATUS_NOT_SUPPORTED)
            },
            Phase::WriteLink => if ok {
                identity_map_ept(mem);
                let eptp = EptPointer::new(self.addresses.ept_pml4);
                self.phase = Phase::WriteEpt;
                Action::Vmwrite { field: encoding::EPT_POINTER, value: eptp.eptp }
            } else {
                self.finish(STATUS_NOT_SUPPORTED)
            },
            Phase::WriteEpt => if ok {
                self.caps = Vec::new();
                self.phase = Phase::ReadCaps;
                Action::ReadMsr { msr: IA32_VMX_PINBASED_CTLS }
            } else {
                self.finish(STATUS_NOT_SUPPORTED)
            },
            Phase::ReadCaps => match event {
                Event::Value(x) => {
                    self.caps.push(x);
                    if self.caps.len() < CONTROL_WRITE_COUNT {
                        let msrs: [u32; 5] = [
                            IA32_VMX_PINBASED_CTLS,
                            IA32_VMX_PROCBASED_CTLS,
                            IA32_VMX_PROCBASED_CTLS2,
                            IA32_VMX_EXIT_CTLS,
                            IA32_VMX_ENTRY_CTLS,
                        ];
                        Action::ReadMsr { msr: msrs[self.caps.len()] }
                    } else {
                        self.writes = control_write_list(&self.caps);
                        self.next = 0;
                        self.phase = Phase::WriteControls;
                        Action::Vmwrite { field: self.writes[0].0, value: self.writes[0].1 }
                    }
                },
                _ => self.finish(STATUS_NOT_SUPPORTED),
            },
            Phase::WriteControls => if !ok {
                self.finish(STATUS_NOT_SUPPORTED)
            } else if self.next + 1 < CONTROL_WRITE_COUNT {
                self.next = self.next + 1;
                Action::Vmwrite { field: self.writes[self.next].0, value: self.writes[self.next].1 }
            } else {
                self.phase = Phase::Capture;
                Action::CaptureCpuState
            },
            Phase::Capture => match event {
                Event::Cpu(cpu) => {
                    let top = self.addresses.host_stack.wrapping_add(HOST_STACK_SIZE as u64);
                    self.writes = state_writes(&cpu, self.exit_handler, top);
                    self.next = 0;
                    self.phase = Phase::WriteState;
                    Action::Vmwrite { field: self.writes[0].0, value: self.writes[0].1 }
                },
                _ => self.finish(STATUS_NOT_SUPPORTED),
            },
            Phase::WriteState => if !ok {
                self.finish(STATUS_NOT_SUPPORTED)
            } else if self.next + 1 < STATE_WRITE_COUNT {
                self.next = self.next + 1;
                Action::Vmwrite { field: self.writes[self.next].0, value: self.writes[self.next].1 }
            } else {
                self.phase = Phase::Launch;
                Action::Vmlaunch
            },
            Phase::Launch => if ok {
                self.finish(STATUS_SUCCESS)
            } else {
                self.phase = Phase::ReadError;
                Action::Vmread { field: encoding::VM_INSTRUCTION_ERROR }
            },
            Phase::ReadError => self.finish(STATUS_UNSUCCESSFUL),
            Phase::Finished => Action::Finish { status: self.status },
        }
    }
}

/// The execution-control writes for the capability values read.
fn control_write_list(caps: &Vec<u64>) -> (writes: Vec<(u32, u64)>)
    requires
        caps@.len() == CONTROL_WRITE_COUNT,
    ensures
        writes@ == spec_control_write_list(caps@),
{
    let mut writes: Vec<(u32, u64)> = Vec::new();
    writes.push((encoding::PIN_BASED_VM_EXEC_CONTROL, adjust(0, caps[0])));
    writes.push((encoding::CPU_BASED_VM_EXEC_CONTROL, adjust(VMX_PROCBASED_USE_SECONDARY, caps[1])));
    writes.push((encoding::SECONDARY_VM_EXEC_CONTROL, adjust(VMX_PROCBASED2_ENABLE_EPT, caps[2])));
    writes.push((encoding::VM_EXIT_CONTROLS, adjust(0, caps[3])));
    writes.push((encoding::VM_ENTRY_CONTROLS, adjust(0, caps[4])));
    assert(writes@ =~= spec_control_write_list(caps@));
    writes
}

fn adjust(current: u64, cap: u64) -> (adjusted: u64)
    ensures
        adjusted == spec_adjust_vmx_control(current, cap),
{
    super::msr::adjust_vmx_control_values(current, cap)
}

} // verus!
