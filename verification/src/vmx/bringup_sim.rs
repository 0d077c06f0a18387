//! The bring-up state machine driven by the simulated processor: the
//! simulated processor executes each action, and the run ends in the state,
//! status and memory of the bring-up's specification.
use vstd::prelude::*;

use super::bringup::{
    spec_cap_msr, spec_control_write_list, spec_step, spec_step_memory, Action, BringUpView,
    Event, Phase,
};
use super::config::{lemma_next_write, spec_after_setup_vmcs, spec_control_writes, spec_setup_writes};
use super::init::{
    spec_after_enable_vmx, spec_revision_written, spec_vmx_64bit, spec_vmx_checks_pass,
    spec_vmx_cr0, spec_vmx_cr4,
};
use super::memory::{spec_host_stack_top, RegionAddresses, VmxMemory};
use super::msr::{
    IA32_FEATURE_CONTROL, IA32_VMX_BASIC, IA32_VMX_CR0_FIXED0, IA32_VMX_CR0_FIXED1,
    IA32_VMX_CR4_FIXED0, IA32_VMX_CR4_FIXED1,
};
use super::sim::{self, SimEvent, SimOp, SimState, SimView, HOST_EXIT_STUB};
use super::state::{spec_guest_state_writes, spec_host_state_writes};
use super::vmcs::{encoding, spec_after_writes};
use crate::{read_cpuid_ecx, spec_bring_up_memory, spec_bring_up_sim, spec_bring_up_status, spec_vmx_bit};

verus! {

/// The simulated processor after it executes `action`.
pub open spec fn spec_execute_state(v: SimView, action: Action) -> SimView {
    match action {
        Action::WriteCr { index, value } => v.apply(SimOp::WriteCr { index, value }),
        Action::Vmxon { region } => v.apply(SimOp::Vmxon { region }),
        Action::Vmptrld { vmcs_pa } => v.apply(SimOp::Vmptrld { vmcs_pa }),
        Action::Vmwrite { field, value } => v.apply(SimOp::Vmwrite { field, value }),
        Action::Vmread { field } => v.apply(SimOp::Vmread { field }),
        Action::Vmlaunch => v.apply(SimOp::Vmlaunch),
        _ => v,
    }
}

/// The outcome of `action` on the simulated processor: the value read, the
/// captured state, or whether the instruction succeeded (`VMREAD` with no
/// current VMCS fails).
pub open spec fn spec_execute_event(v: SimView, action: Action) -> Event {
    match action {
        Action::ReadCpuidEcx { leaf } => Event::Value(v.cpuid[leaf] as u64),
        Action::ReadMsr { msr } => Event::Value(v.msr(msr)),
        Action::ReadCr { index } => Event::Value(v.cr_value(index as int)),
        Action::WriteCr { index, .. } => Event::Status(index < 5),
        Action::Vmxon { .. } => Event::Status(!v.vmxon_fail),
        Action::Vmptrld { .. } => Event::Status(v.vmx_enabled),
        Action::Vmwrite { .. } => Event::Status(v.vmcs_loaded),
        Action::Vmread { field } => if v.vmcs_loaded {
            Event::Value(v.vmcs_value(field))
        } else {
            Event::Status(false)
        },
        Action::CaptureCpuState => Event::Cpu(v.cpu),
        Action::Vmlaunch => Event::Status(v.launch_succeeds()),
        Action::Finish { .. } => Event::Status(true),
    }
}

/// Executes `action` on the simulated processor and reports its outcome.
/// `CPUID` of a leaf that the simulation does not define is asked of the host
/// processor.
pub fn execute_on_sim(sim: &mut SimState, action: Action) -> (event: Event)
    ensures
        final(sim)@ == spec_execute_state(old(sim)@, action),
        !(action is ReadCpuidEcx) ==> event == spec_execute_event(old(sim)@, action),
        action matches Action::ReadCpuidEcx { leaf } ==> (event matches Event::Value(x) && x
            <= 0xFFFF_FFFF && (old(sim)@.cpuid.contains_key(leaf) ==> x == old(sim)@.cpuid[leaf]
            as u64)),
{
    match action {
        Action::ReadCpuidEcx { leaf } => Event::Value(read_cpuid_ecx(sim, leaf) as u64),
        Action::ReadMsr { msr } => Event::Value(sim::read_msr(sim, msr)),
        Action::ReadCr { index } => Event::Value(sim::read_cr(sim, index)),
        Action::WriteCr { index, value } => {
            sim::write_cr(sim, index, value);
            Event::Status(index < 5)
        },
        Action::Vmxon { region } => Event::Status(sim::vmxon(sim, region)),
        Action::Vmptrld { vmcs_pa } => Event::Status(sim::vmptrld(sim, vmcs_pa)),
        Action::Vmwrite { field, value } => Event::Status(sim::vmwrite(sim, field, value).is_ok()),
        Action::Vmread { field } => match sim::vmread(sim, field) {
            Ok(value) => Event::Value(value),
            Err(_) => Event::Status(false),
        },
        Action::CaptureCpuState => Event::Cpu(sim::cpu_state(sim)),
        Action::Vmlaunch => Event::Status(sim::vmlaunch(sim).is_ok()),
        Action::Finish { .. } => Event::Status(true),
    }
}

/// The simulated processor once the bring-up has entered VMX operation and
/// made the VMCS region current.
pub open spec fn spec_vmcs_loaded_state(v0: SimView, addresses: RegionAddresses) -> SimView {
    let v1 = spec_after_enable_vmx(v0, addresses.vmxon);
    SimView {
        events: v1.events.push(SimEvent::Vmptrld { vmcs_pa: addresses.vmcs }),
        vmcs_loaded: v1.vmcs_loaded || v1.vmx_enabled,
        ..v1
    }
}

/// The VMCS writes of the bring-up, in order.
pub open spec fn spec_bring_up_writes(v0: SimView, addresses: RegionAddresses) -> Seq<(u32, u64)> {
    spec_setup_writes(spec_after_enable_vmx(v0, addresses.vmxon), addresses)
}

/// The simulated processor after the first `k` VMCS writes of the bring-up.
pub open spec fn spec_after_first_writes(v0: SimView, addresses: RegionAddresses, k: int) -> SimView {
    spec_after_writes(spec_vmcs_loaded_state(v0, addresses), spec_bring_up_writes(v0, addresses).take(k))
}

/// The action for VMCS write `k` of the bring-up.
pub open spec fn spec_write_action(v0: SimView, addresses: RegionAddresses, k: int) -> Action {
    let w = spec_bring_up_writes(v0, addresses)[k];
    Action::Vmwrite { field: w.0, value: w.1 }
}

/// How far a bring-up run on the simulated processor that started in `v0`
/// with memory `mem0` has come: for each phase of the machine `m`, the
/// action it asks for next, the processor state `s` and the memory `mem`.
/// `supported` is what CPUID reported.
pub open spec fn spec_run_invariant(
    v0: SimView,
    mem0: VmxMemory,
    supported: bool,
    m: BringUpView,
    action: Action,
    s: SimView,
    mem: VmxMemory,
) -> bool {
    let addresses = mem0.addresses;
    let v1 = spec_after_enable_vmx(v0, addresses.vmxon);
    let writes = spec_bring_up_writes(v0, addresses);
    let cr0 = SimOp::WriteCr { index: 0, value: spec_vmx_cr0(v0) };
    let cr4 = SimOp::WriteCr { index: 4, value: spec_vmx_cr4(v0) };
    let revised = spec_revision_written(mem0, mem, (v0.msr(IA32_VMX_BASIC) & 0x7FFF_FFFF) as u32);
    let checked = supported && spec_vmx_checks_pass(v0) && revised;
    let entered = supported && spec_vmx_checks_pass(v0) && !v0.vmxon_fail;
    let mapped = entered && spec_bring_up_memory(v0, mem0, mem, true);
    &&& m.wf()
    &&& m.addresses == addresses
    &&& m.exit_handler == HOST_EXIT_STUB
    &&& mem.addresses == addresses
    &&& (m.phase != Phase::CheckCpuid && v0.cpuid.contains_key(1)) ==> supported == spec_vmx_bit(
        v0.cpuid[1],
    )
    &&& match m.phase {
        Phase::CheckCpuid => action == Action::ReadCpuidEcx { leaf: 1 } && s == v0 && mem == mem0,
        Phase::CheckBasic => supported && action == Action::ReadMsr { msr: IA32_VMX_BASIC } && s
            == v0 && mem == mem0,
        Phase::CheckFeatureControl => supported && spec_vmx_64bit(v0) && revised && s == v0
            && action == Action::ReadMsr { msr: IA32_FEATURE_CONTROL },
        Phase::ReadCr0 => checked && s == v0 && action == Action::ReadCr { index: 0 },
        Phase::ReadCr4 => checked && s == v0 && m.cr0 == v0.cr_value(0) && action
            == Action::ReadCr { index: 4 },
        Phase::ReadCr0Fixed0 => checked && s == v0 && m.cr0 == v0.cr_value(0) && m.cr4
            == v0.cr_value(4) && action == Action::ReadMsr { msr: IA32_VMX_CR0_FIXED0 },
        Phase::ReadCr0Fixed1 => checked && s == v0 && m.cr0 == v0.cr_value(0) && m.cr4
            == v0.cr_value(4) && m.fixed0 == v0.msr(IA32_VMX_CR0_FIXED0) && action
            == Action::ReadMsr { msr: IA32_VMX_CR0_FIXED1 },
        Phase::ReadCr4Fixed0 => checked && s == v0 && m.cr4 == v0.cr_value(4) && m.adjusted_cr0
            == spec_vmx_cr0(v0) && action == Action::ReadMsr { msr: IA32_VMX_CR4_FIXED0 },
        Phase::ReadCr4Fixed1 => checked && s == v0 && m.cr4 == v0.cr_value(4) && m.adjusted_cr0
            == spec_vmx_cr0(v0) && m.fixed0 == v0.msr(IA32_VMX_CR4_FIXED0) && action
            == Action::ReadMsr { msr: IA32_VMX_CR4_FIXED1 },
        Phase::WriteCr0 => checked && s == v0 && m.adjusted_cr4 == spec_vmx_cr4(v0) && action
            == Action::WriteCr { index: 0, value: spec_vmx_cr0(v0) },
        Phase::WriteCr4 => checked && s == v0.apply(cr0) && action == Action::WriteCr {
            index: 4,
            value: spec_vmx_cr4(v0),
        },
        Phase::EnterVmx => checked && s == v0.apply(cr0).apply(cr4) && action == Action::Vmxon {
            region: addresses.vmxon,
        },
        Phase::LoadVmcs => entered && revised && s == v1 && action == Action::Vmptrld {
            vmcs_pa: addresses.vmcs,
        },
        Phase::WriteLink => entered && revised && s == spec_after_first_writes(v0, addresses, 0)
            && action == spec_write_action(v0, addresses, 0),
        Phase::WriteEpt => mapped && s == spec_after_first_writes(v0, addresses, 1) && action
            == spec_write_action(v0, addresses, 1),
        Phase::ReadCaps => mapped && s == spec_after_first_writes(v0, addresses, 2) && (forall|
            i: int,
        | 0 <= i < m.caps.len() ==> m.caps[i] == #[trigger] v0.msr(spec_cap_msr(i))) && action
            == Action::ReadMsr { msr: spec_cap_msr(m.caps.len() as int) },
        Phase::WriteControls => mapped && m.writes == writes.subrange(2, 7) && s
            == spec_after_first_writes(v0, addresses, 2 + m.next as int) && action == spec_write_action(
            v0,
            addresses,
            2 + m.next as int,
        ),
        Phase::Capture => mapped && s == spec_after_first_writes(v0, addresses, 7) && action
            == Action::CaptureCpuState,
        Phase::WriteState => mapped && m.writes == writes.subrange(7, 70) && s
            == spec_after_first_writes(v0, addresses, 7 + m.next as int) && action == spec_write_action(
            v0,
            addresses,
            7 + m.next as int,
        ),
        Phase::Launch => mapped && s == spec_after_setup_vmcs(v1, addresses) && action
            == Action::Vmlaunch,
        Phase::ReadError => mapped && !spec_after_setup_vmcs(v1, addresses).launch_succeeds() && s
            == spec_after_setup_vmcs(v1, addresses).after_launch() && action == Action::Vmread {
            field: encoding::VM_INSTRUCTION_ERROR,
        },
        Phase::Finished => action == Action::Finish { status: m.status } && m.status
            == spec_bring_up_status(v0, mem0, supported) && s == spec_bring_up_sim(
            v0,
            mem0,
            supported,
        ) && spec_bring_up_memory(v0, mem0, mem, supported),
        Phase::Start => false,
    }
}

/// The execution-control writes computed from the five capability MSRs
/// read from the processor are writes 2 to 6 of the bring-up.
proof fn lemma_control_writes_from_caps(v0: SimView, addresses: RegionAddresses, caps: Seq<u64>)
    requires
        caps.len() == 5,
        forall|i: int| 0 <= i < 5 ==> caps[i] == #[trigger] v0.msr(spec_cap_msr(i)),
    ensures
        spec_control_write_list(caps) == spec_bring_up_writes(v0, addresses).subrange(2, 7),
{
    let v1 = spec_after_enable_vmx(v0, addresses.vmxon);
    let writes = spec_bring_up_writes(v0, addresses);
    let controls = spec_control_writes(v1, addresses);
    assert(v1.msrs == v0.msrs);
    assert(caps[0] == v0.msr(spec_cap_msr(0)));
    assert(caps[1] == v0.msr(spec_cap_msr(1)));
    assert(caps[2] == v0.msr(spec_cap_msr(2)));
    assert(caps[3] == v0.msr(spec_cap_msr(3)));
    assert(caps[4] == v0.msr(spec_cap_msr(4)));
    assert(controls.len() == 7);
    assert(forall|i: int| 0 <= i < 7 ==> writes[i] == controls[i]);
    assert(spec_control_write_list(caps) =~= writes.subrange(2, 7));
}

/// One step of a run on the simulated processor keeps `spec_run_invariant`:
/// the processor executes the pending action, and the machine takes its outcome.
pub proof fn lemma_run_step(
    v0: SimView,
    mem0: VmxMemory,
    supported: bool,
    m: BringUpView,
    action: Action,
    s: SimView,
    mem: VmxMemory,
    e: Event,
    s2: SimView,
    mem2: VmxMemory,
)
    requires
        spec_run_invariant(v0, mem0, supported, m, action, s, mem),
        m.phase != Phase::Finished,
        s2 == spec_execute_state(s, action),
        !(action is ReadCpuidEcx) ==> e == spec_execute_event(s, action),
        action is ReadCpuidEcx ==> (e matches Event::Value(x) && x <= 0xFFFF_FFFF && (
        s.cpuid.contains_key(1) ==> x == s.cpuid[1] as u64) && supported == spec_vmx_bit(
            x as u32,
        )),
        spec_step_memory(m, e, mem, mem2),
        spec_step(m, e).0.wf(),
    ensures
        spec_run_invariant(v0, mem0, supported, spec_step(m, e).0, spec_step(m, e).1, s2, mem2),
{
    let addresses = mem0.addresses;
    let v1 = spec_after_enable_vmx(v0, addresses.vmxon);
    let loaded = spec_vmcs_loaded_state(v0, addresses);
    let writes = spec_bring_up_writes(v0, addresses);
    let controls = spec_control_writes(v1, addresses);
    let state = spec_guest_state_writes(v1.cpu) + spec_host_state_writes(
        v1.cpu,
        HOST_EXIT_STUB,
        spec_host_stack_top(addresses),
    );
    assert(writes == controls + state);
    assert(controls.len() == 7);
    assert(writes.len() == 70);
    match m.phase {
        Phase::LoadVmcs => {
            assert(writes.take(0) =~= Seq::<(u32, u64)>::empty());
            assert(spec_after_writes(loaded, writes.take(0)) =~= loaded);
        },
        Phase::WriteLink => {
            lemma_next_write(loaded, writes, 0);
        },
        Phase::WriteEpt => {
            lemma_next_write(loaded, writes, 1);
        },
        Phase::ReadCaps => {
            let caps = m.caps.push(s.msr(spec_cap_msr(m.caps.len() as int)));
            if m.caps.len() + 1 >= 5 {
                assert(s.msrs == v0.msrs);
                lemma_control_writes_from_caps(v0, addresses, caps);
            }
        },
        Phase::WriteControls => {
            lemma_next_write(loaded, writes, 2 + m.next as int);
        },
        Phase::Capture => {
            assert(state =~= writes.subrange(7, 70));
        },
        Phase::WriteState => {
            lemma_next_write(loaded, writes, 7 + m.next as int);
            if m.next + 1 >= 63 {
                assert(writes.take(70) =~= writes);
            }
        },
        _ => {},
    }
}

} // verus!
