//! Project Hliðskjálf: a thin VT-x hypervisor's bring-up logic, verified
//! against a model of a VMX-capable processor.
pub mod vmx;

pub use vmx::sim;

use vstd::prelude::*;

use vmx::bringup::{spec_position, Action, BringUp, Event, Phase};
use vmx::bringup_sim::{execute_on_sim, lemma_run_step, spec_run_invariant};
use vmx::config::{
    lemma_setup_vmcs_control_fields, lemma_setup_vmcs_launch_fields, lemma_setup_vmcs_state_fields,
    spec_after_setup_vmcs,
};
use vmx::ept::{spec_eptp, spec_holds_identity_map};
use vmx::init::{
    lemma_vmx_control_register_bits, spec_after_enable_vmx, CR4_VMXE, vm_exit_handler_address, spec_enable_vmx_memory, spec_vmx_64bit,
    spec_vmx_checks_pass,
};
use vmx::memory::{spec_addresses_aligned, spec_host_stack_top, VmxMemory};
use vmx::msr::{
    spec_adjust_vmx_control, spec_control_allowed, spec_keeps_allowed_bits, IA32_VMX_CR0_FIXED0,
    IA32_VMX_CR0_FIXED1, IA32_VMX_CR4_FIXED0, IA32_VMX_CR4_FIXED1, IA32_VMX_ENTRY_CTLS,
    IA32_VMX_EXIT_CTLS, IA32_VMX_PINBASED_CTLS, IA32_VMX_PROCBASED_CTLS, IA32_VMX_PROCBASED_CTLS2,
    VMX_PROCBASED2_ENABLE_EPT, VMX_PROCBASED_USE_SECONDARY,
};
use vmx::sim::{SimEvent, HOST_EXIT_STUB};
use vmx::state::{spec_guest_area_holds, spec_host_area_holds};
use vmx::vmcs::encoding;
use vmx::sim::{cpuid_ecx, SimState, SimView};
use vmx::vmlaunch::spec_after_vmlaunch;

verus! {

/// NTSTATUS `STATUS_SUCCESS`.
pub const STATUS_SUCCESS: i32 = 0;
/// NTSTATUS `STATUS_NOT_SUPPORTED` (0xC00000BB).
pub const STATUS_NOT_SUPPORTED: i32 = -0x3FFF_FF45;
/// NTSTATUS `STATUS_UNSUCCESSFUL` (0xC0000001).
pub const STATUS_UNSUCCESSFUL: i32 = -0x3FFF_FFFF;

/// CPUID leaf 1 ECX reports VMX support (bit 5).
pub open spec fn spec_vmx_bit(ecx: u32) -> bool {
    (ecx >> 5u32) & 1u32 == 1u32
}

/// Testable VMX capability check from CPUID leaf 1 ECX bits.
pub fn check_vmx_support_from_ecx(ecx: u32) -> (supported: bool)
    ensures
        supported == spec_vmx_bit(ecx),
{
    ((ecx >> 5) & 1) == 1
}

/// `CPUID` of the processor that runs this code: ECX of leaf `leaf`.
///
/// Calls `core::arch::x86_64::__cpuid`; the result depends on the machine, so
/// nothing is stated of it.
#[verifier::external_body]
fn host_cpuid_ecx(leaf: u32) -> u32 {
    core::arch::x86_64::__cpuid(leaf).ecx
}

/// ECX of CPUID leaf `leaf`: the simulated leaf when the simulation defines
/// it, otherwise the host processor's.
pub(crate) fn read_cpuid_ecx(sim: &SimState, leaf: u32) -> (ecx: u32)
    ensures
        sim@.cpuid.contains_key(leaf) ==> ecx == sim@.cpuid[leaf],
{
    match cpuid_ecx(sim, leaf) {
        Some(ecx) => ecx,
        None => host_cpuid_ecx(leaf),
    }
}

/// Returns whether CPUID leaf 1 reports VMX support in ECX bit 5.
pub fn check_vmx_support(sim: &SimState) -> (supported: bool)
    ensures
        sim@.cpuid.contains_key(1) ==> supported == spec_vmx_bit(sim@.cpuid[1]),
{
    check_vmx_support_from_ecx(read_cpuid_ecx(sim, 1))
}

/// Minimal Windows driver object type.
pub struct DriverObject(pub [u8; 0]);

/// Minimal Windows counted-string type.
pub struct UnicodeString(pub [u8; 0]);

/// The bring-up enters VMX operation: the checks before `VMXON` pass and `VMXON` succeeds.
pub open spec fn spec_enters_vmx(v: SimView) -> bool {
    spec_vmx_checks_pass(v) && !v.vmxon_fail
}

/// The processor state after the bring-up, given whether VMX is supported.
pub open spec fn spec_bring_up_sim(v: SimView, mem: VmxMemory, vmx_supported: bool) -> SimView {
    if !vmx_supported {
        v
    } else if !spec_enters_vmx(v) {
        spec_after_enable_vmx(v, mem.addresses.vmxon)
    } else {
        spec_after_vmlaunch(
            spec_after_setup_vmcs(spec_after_enable_vmx(v, mem.addresses.vmxon), mem.addresses),
        )
    }
}

/// The status of the bring-up, given whether VMX is supported: not supported
/// when VMX is absent or cannot be entered, unsuccessful when `VMLAUNCH`
/// fails, success otherwise.
pub open spec fn spec_bring_up_status(v: SimView, mem: VmxMemory, vmx_supported: bool) -> i32 {
    if !vmx_supported || !spec_enters_vmx(v) {
        STATUS_NOT_SUPPORTED
    } else if spec_after_setup_vmcs(
        spec_after_enable_vmx(v, mem.addresses.vmxon),
        mem.addresses,
    ).launch_succeeds() {
        STATUS_SUCCESS
    } else {
        STATUS_UNSUCCESSFUL
    }
}

/// The hypervisor memory after the bring-up, given whether VMX is supported:
/// the revision identifier is written once VMX support is confirmed, and the
/// EPT identity map is built once VMX operation is entered.
pub open spec fn spec_bring_up_memory(
    v: SimView,
    before: VmxMemory,
    after: VmxMemory,
    vmx_supported: bool,
) -> bool {
    if !vmx_supported {
        after == before
    } else if !spec_enters_vmx(v) {
        spec_enable_vmx_memory(v, before, after)
    } else {
        &&& spec_vmx_64bit(v)
        &&& after.vmxon_region@ == vmx::memory::spec_with_le_u32(
            before.vmxon_region@,
            0,
            (v.msr(vmx::msr::IA32_VMX_BASIC) & 0x7FFF_FFFF) as u32,
        )
        &&& after.vmcs_region@ == vmx::memory::spec_with_le_u32(
            before.vmcs_region@,
            0,
            (v.msr(vmx::msr::IA32_VMX_BASIC) & 0x7FFF_FFFF) as u32,
        )
        &&& spec_holds_identity_map(after)
        &&& after.host_stack == before.host_stack
        &&& after.addresses == before.addresses
    }
}

/// Driver entry point: checks CPUID for VMX, enables VMX, configures the VMCS
/// and launches the current context as a guest.
#[allow(non_snake_case)]
pub fn DriverEntry(sim: &mut SimState, mem: &mut VmxMemory) -> (status: i32)
    requires
        spec_addresses_aligned(old(mem).addresses),
    ensures
        old(sim)@.cpuid.contains_key(1) ==> {
            let supported = spec_vmx_bit(old(sim)@.cpuid[1]);
            &&& status == spec_bring_up_status(old(sim)@, *old(mem), supported)
            &&& final(sim)@ == spec_bring_up_sim(old(sim)@, *old(mem), supported)
            &&& spec_bring_up_memory(old(sim)@, *old(mem), *final(mem), supported)
        },
        exists|supported: bool|
            {
                &&& status == spec_bring_up_status(old(sim)@, *old(mem), supported)
                &&& final(sim)@ == spec_bring_up_sim(old(sim)@, *old(mem), supported)
                &&& spec_bring_up_memory(old(sim)@, *old(mem), *final(mem), supported)
            },
{
    let ghost v0 = sim@;
    let ghost mem0 = *mem;
    let ghost mut supported = false;
    let mut machine = BringUp::new(mem.addresses, vm_exit_handler_address());
    let mut action = machine.step(mem, Event::Start);
    loop
        invariant
            spec_run_invariant(v0, mem0, supported, machine@, action, sim@, *mem),
            v0 == old(sim)@,
            mem0 == *old(mem),
        decreases 100 - spec_position(machine@),
    {
        if let Action::Finish { status } = action {
            assert({
                &&& status == spec_bring_up_status(v0, mem0, supported)
                &&& sim@ == spec_bring_up_sim(v0, mem0, supported)
                &&& spec_bring_up_memory(v0, mem0, *mem, supported)
            });
            return status;
        }
        let ghost m = machine@;
        let ghost s = sim@;
        let ghost before = *mem;
        let ghost pending = action;
        let event = execute_on_sim(sim, action);
        proof {
            if m.phase == Phase::CheckCpuid {
                if let Event::Value(ecx) = event {
                    supported = spec_vmx_bit(ecx as u32);
                }
            }
        }
        action = machine.step(mem, event);
        proof {
            lemma_run_step(v0, mem0, supported, m, pending, s, before, event, sim@, *mem);
        }
    }
}

/// The bring-up launches the guest: VMX is supported and entered, no launch
/// failure is injected, and every field that `VMLAUNCH` checks gets a nonzero
/// value (captured RIP and RSP, host stack top, adjusted processor-based controls).
pub open spec fn spec_bring_up_succeeds(v: SimView, mem: VmxMemory, vmx_supported: bool) -> bool {
    &&& vmx_supported
    &&& spec_enters_vmx(v)
    &&& !v.vmlaunch_fail
    &&& v.cpu.rip != 0
    &&& v.cpu.rsp != 0
    &&& spec_host_stack_top(mem.addresses) != 0
    &&& spec_adjust_vmx_control(VMX_PROCBASED_USE_SECONDARY, v.msr(IA32_VMX_PROCBASED_CTLS)) != 0
    &&& spec_adjust_vmx_control(VMX_PROCBASED2_ENABLE_EPT, v.msr(IA32_VMX_PROCBASED_CTLS2)) != 0
}

/// The bring-up's status: success exactly when `spec_bring_up_succeeds`; "not
/// supported" exactly when VMX is absent or VMX operation cannot be entered;
/// "unsuccessful" otherwise (the launch itself failed). A successful bring-up
/// leaves VMX on, the VMCS current with the guest RIP/RSP, the VM-exit entry
/// point, the host stack top and the EPT pointer in place, and its log ends
/// with `VMXON` of the VMXON region, `VMPTRLD` of the VMCS region, ...,
/// `VMLAUNCH`, and the CR0 and then CR4 writes are recorded before that `VMXON`.
pub proof fn lemma_bring_up_outcome(v: SimView, mem: VmxMemory, vmx_supported: bool)
    ensures
        (spec_bring_up_status(v, mem, vmx_supported) == STATUS_SUCCESS) == spec_bring_up_succeeds(
            v,
            mem,
            vmx_supported,
        ),
        (spec_bring_up_status(v, mem, vmx_supported) == STATUS_NOT_SUPPORTED) == (!vmx_supported
            || !spec_enters_vmx(v)),
        spec_bring_up_status(v, mem, vmx_supported) == STATUS_SUCCESS
            || spec_bring_up_status(v, mem, vmx_supported) == STATUS_NOT_SUPPORTED
            || spec_bring_up_status(v, mem, vmx_supported) == STATUS_UNSUCCESSFUL,
        spec_bring_up_succeeds(v, mem, vmx_supported) ==> ({
            let after = spec_bring_up_sim(v, mem, vmx_supported);
            &&& after.vmx_enabled
            &&& after.vmcs_loaded
            &&& after.vmcs[encoding::GUEST_RIP] == v.cpu.rip
            &&& after.vmcs[encoding::GUEST_RSP] == v.cpu.rsp
            &&& after.vmcs[encoding::HOST_RIP] == HOST_EXIT_STUB
            &&& after.vmcs[encoding::HOST_RSP] == spec_host_stack_top(mem.addresses)
            &&& after.vmcs[encoding::EPT_POINTER] == spec_eptp(mem.addresses.ept_pml4)
            &&& after.cr_writes.len() == v.cr_writes.len() + 2
            &&& after.cr_writes[v.cr_writes.len() as int].index == 0
            &&& after.cr_writes[v.cr_writes.len() as int].vmx_events_before == v.events.len() as usize
            &&& after.cr_writes[v.cr_writes.len() + 1int].index == 4
            &&& after.cr_writes[v.cr_writes.len() + 1int].vmx_events_before == v.events.len() as usize
            &&& after.events[v.events.len() as int] == SimEvent::Vmxon {
                region: mem.addresses.vmxon,
            }
            &&& after.events[v.events.len() + 1int] == SimEvent::Vmptrld {
                vmcs_pa: mem.addresses.vmcs,
            }
            &&& after.events.last() == SimEvent::Vmlaunch
            &&& spec_guest_area_holds(after, v.cpu)
            &&& spec_host_area_holds(after, v.cpu, HOST_EXIT_STUB, spec_host_stack_top(mem.addresses))
            &&& spec_control_allowed(
                after.vmcs_value(encoding::PIN_BASED_VM_EXEC_CONTROL),
                v.msr(IA32_VMX_PINBASED_CTLS),
            )
            &&& spec_control_allowed(
                after.vmcs_value(encoding::CPU_BASED_VM_EXEC_CONTROL),
                v.msr(IA32_VMX_PROCBASED_CTLS),
            )
            &&& spec_control_allowed(
                after.vmcs_value(encoding::SECONDARY_VM_EXEC_CONTROL),
                v.msr(IA32_VMX_PROCBASED_CTLS2),
            )
            &&& spec_control_allowed(
                after.vmcs_value(encoding::VM_EXIT_CONTROLS),
                v.msr(IA32_VMX_EXIT_CTLS),
            )
            &&& spec_control_allowed(
                after.vmcs_value(encoding::VM_ENTRY_CONTROLS),
                v.msr(IA32_VMX_ENTRY_CTLS),
            )
        }),
        spec_bring_up_succeeds(v, mem, vmx_supported) && v.cr.len() == 5 ==> {
            let after = spec_bring_up_sim(v, mem, vmx_supported);
            &&& spec_keeps_allowed_bits(
                after.cr_value(0),
                v.cr_value(0),
                0,
                v.msr(IA32_VMX_CR0_FIXED0),
                v.msr(IA32_VMX_CR0_FIXED1),
            )
            &&& spec_keeps_allowed_bits(
                after.cr_value(4),
                v.cr_value(4),
                CR4_VMXE,
                v.msr(IA32_VMX_CR4_FIXED0),
                v.msr(IA32_VMX_CR4_FIXED1),
            )
        },
{
    if vmx_supported && spec_enters_vmx(v) {
        let entered = spec_after_enable_vmx(v, mem.addresses.vmxon);
        assert(entered.vmx_enabled);
        assert(entered.msrs == v.msrs && entered.cpu == v.cpu);
        lemma_setup_vmcs_launch_fields(entered, mem.addresses);
        lemma_setup_vmcs_control_fields(entered, mem.addresses);
        lemma_setup_vmcs_state_fields(entered, mem.addresses);
        lemma_vmx_control_register_bits(v);
        let pml4 = mem.addresses.ept_pml4;
        assert((pml4 & 0xFFFF_FFFF_F000u64) | 0x1Eu64 != 0) by (bit_vector);
        let configured = spec_after_setup_vmcs(entered, mem.addresses);
        assert(configured.events.len() >= v.events.len() + 2);
        assert(configured.cr_writes == entered.cr_writes);
        assert(configured.events[v.events.len() as int] == SimEvent::Vmxon {
            region: mem.addresses.vmxon,
        });
    }
}

/// The bring-up only appends to the log of executed VMX instructions.
pub proof fn lemma_bring_up_log_extends(v: SimView, mem: VmxMemory, vmx_supported: bool)
    ensures
        v.events.is_prefix_of(spec_bring_up_sim(v, mem, vmx_supported).events),
{
    let after = spec_bring_up_sim(v, mem, vmx_supported);
    assert(after.events.len() >= v.events.len());
    assert forall|i: int| 0 <= i < v.events.len() implies #[trigger] after.events[i] == v.events[i] by {
    }
}

} // verus!
