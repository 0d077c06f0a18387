//! VMCS configuration for an in-place launch of the current CPU context.
use vstd::prelude::*;

use super::ept::{identity_map_ept, spec_eptp, spec_holds_identity_map, EptPointer};
use super::init::{vm_exit_handler_address, vmptrld};
use super::memory::{spec_addresses_aligned, spec_host_stack_top, RegionAddresses, VmxMemory};
use super::msr::{
    adjust_vmx_control, lemma_adjust_vmx_control, spec_adjust_vmx_control, spec_control_allowed,
    IA32_VMX_ENTRY_CTLS, IA32_VMX_EXIT_CTLS,
    IA32_VMX_PINBASED_CTLS, IA32_VMX_PROCBASED_CTLS, IA32_VMX_PROCBASED_CTLS2,
    VMX_PROCBASED2_ENABLE_EPT, VMX_PROCBASED_USE_SECONDARY,
};
use super::sim::{SimEvent, SimState, SimView, HOST_EXIT_STUB};
use super::state::{
    capture_cpu_state, lemma_guest_state_fields, CpuState, lemma_host_state_fields, spec_guest_area_holds,
    spec_guest_state_writes, spec_host_area_holds, spec_host_state_writes, write_guest_state,
    write_host_state,
};
use super::vmcs::{
    encoding, lemma_after_writes_concat, lemma_apply_writes_last, lemma_apply_writes_untouched,
    lemma_single_write,
    spec_after_writes, vmwrite,
};

verus! {

/// The VMCS link pointer value meaning "no shadow VMCS".
pub const VMCS_LINK_POINTER_NONE: u64 = 0xFFFF_FFFF_FFFF_FFFF;

/// The link-pointer, EPT-pointer and execution-control writes of `setup_vmcs`,
/// in order; each control is adjusted to its capability MSR.
pub open spec fn spec_control_writes(v: SimView, addresses: RegionAddresses) -> Seq<(u32, u64)> {
    seq![
        (encoding::VMCS_LINK_POINTER, VMCS_LINK_POINTER_NONE),
        (encoding::EPT_POINTER, spec_eptp(addresses.ept_pml4)),
        (
            encoding::PIN_BASED_VM_EXEC_CONTROL,
            spec_adjust_vmx_control(0, v.msr(IA32_VMX_PINBASED_CTLS)),
        ),
        (
            encoding::CPU_BASED_VM_EXEC_CONTROL,
            spec_adjust_vmx_control(VMX_PROCBASED_USE_SECONDARY, v.msr(IA32_VMX_PROCBASED_CTLS)),
        ),
        (
            encoding::SECONDARY_VM_EXEC_CONTROL,
            spec_adjust_vmx_control(VMX_PROCBASED2_ENABLE_EPT, v.msr(IA32_VMX_PROCBASED_CTLS2)),
        ),
        (encoding::VM_EXIT_CONTROLS, spec_adjust_vmx_control(0, v.msr(IA32_VMX_EXIT_CTLS))),
        (encoding::VM_ENTRY_CONTROLS, spec_adjust_vmx_control(0, v.msr(IA32_VMX_ENTRY_CTLS))),
    ]
}

/// Every VMCS write of `setup_vmcs`, in order: controls, guest state (the
/// captured CPU state), host state (the captured CPU state, the VM-exit entry
/// point and the top of the host stack).
pub open spec fn spec_setup_writes(v: SimView, addresses: RegionAddresses) -> Seq<(u32, u64)> {
    spec_control_writes(v, addresses) + spec_guest_state_writes(v.cpu) + spec_host_state_writes(
        v.cpu,
        HOST_EXIT_STUB,
        spec_host_stack_top(addresses),
    )
}

/// The processor state after `setup_vmcs`: `VMPTRLD` of the VMCS region and,
/// when it succeeds, every write of `spec_setup_writes`.
pub open spec fn spec_after_setup_vmcs(v: SimView, addresses: RegionAddresses) -> SimView {
    let loaded = SimView {
        events: v.events.push(SimEvent::Vmptrld { vmcs_pa: addresses.vmcs }),
        vmcs_loaded: v.vmcs_loaded || v.vmx_enabled,
        ..v
    };
    if v.vmx_enabled {
        spec_after_writes(loaded, spec_setup_writes(v, addresses))
    } else {
        loaded
    }
}

/// Write `n` of a sequence extends the state after the first `n` writes by one `VMWRITE`.
pub(crate) proof fn lemma_next_write(v: SimView, writes: Seq<(u32, u64)>, n: int)
    requires
        v.vmcs_loaded,
        0 <= n < writes.len(),
    ensures
        spec_after_writes(v, writes.take(n)).vmcs_loaded,
        spec_after_writes(v, writes.take(n + 1)) == (SimView {
            events: spec_after_writes(v, writes.take(n)).events.push(
                SimEvent::Vmwrite { field: writes[n].0, value: writes[n].1 },
            ),
            vmcs: spec_after_writes(v, writes.take(n)).vmcs.insert(writes[n].0, writes[n].1),
            ..spec_after_writes(v, writes.take(n))
        }),
{
    let (field, value) = writes[n];
    lemma_after_writes_concat(v, writes.take(n), seq![(field, value)]);
    lemma_single_write(spec_after_writes(v, writes.take(n)), field, value);
    assert(writes.take(n) + seq![(field, value)] =~= writes.take(n + 1));
}

/// Initializes the VMCS for a minimal in-place launch of the current CPU context.
pub fn setup_vmcs(sim: &mut SimState, mem: &mut VmxMemory) -> (r: Result<(), &'static str>)
    requires
        spec_addresses_aligned(old(mem).addresses),
    ensures
        final(sim)@ == spec_after_setup_vmcs(old(sim)@, old(mem).addresses),
        r == (if old(sim)@.vmx_enabled {
            Ok::<(), &str>(())
        } else {
            Err("VMPTRLD failed")
        }),
        old(sim)@.vmx_enabled ==> {
            &&& spec_holds_identity_map(*final(mem))
            &&& final(mem).vmxon_region == old(mem).vmxon_region
            &&& final(mem).vmcs_region == old(mem).vmcs_region
            &&& final(mem).host_stack == old(mem).host_stack
            &&& final(mem).addresses == old(mem).addresses
        },
        !old(sim)@.vmx_enabled ==> *final(mem) == *old(mem),
        old(sim)@.vmx_enabled ==> spec_guest_area_holds(final(sim)@, old(sim)@.cpu),
        old(sim)@.vmx_enabled ==> spec_host_area_holds(
            final(sim)@,
            old(sim)@.cpu,
            HOST_EXIT_STUB,
            spec_host_stack_top(old(mem).addresses),
        ),
        old(sim)@.vmx_enabled ==> {
            &&& final(sim)@.vmcs_value(encoding::PIN_BASED_VM_EXEC_CONTROL) == spec_adjust_vmx_control(0, old(sim)@.msr(IA32_VMX_PINBASED_CTLS))
            &&& final(sim)@.vmcs_value(encoding::CPU_BASED_VM_EXEC_CONTROL) == spec_adjust_vmx_control(VMX_PROCBASED_USE_SECONDARY, old(sim)@.msr(IA32_VMX_PROCBASED_CTLS))
            &&& final(sim)@.vmcs_value(encoding::SECONDARY_VM_EXEC_CONTROL) == spec_adjust_vmx_control(VMX_PROCBASED2_ENABLE_EPT, old(sim)@.msr(IA32_VMX_PROCBASED_CTLS2))
            &&& final(sim)@.vmcs_value(encoding::VM_EXIT_CONTROLS) == spec_adjust_vmx_control(0, old(sim)@.msr(IA32_VMX_EXIT_CTLS))
            &&& final(sim)@.vmcs_value(encoding::VM_ENTRY_CONTROLS) == spec_adjust_vmx_control(0, old(sim)@.msr(IA32_VMX_ENTRY_CTLS))
        },
{
    let ghost v = sim@;
    proof {
        if v.vmx_enabled {
            lemma_setup_vmcs_control_fields(v, mem.addresses);
            lemma_setup_vmcs_state_fields(v, mem.addresses);
        }
    }
    let vmcs_pa = mem.addresses.vmcs;
    if !vmptrld(sim, vmcs_pa) {
        return Err("VMPTRLD failed");
    }
    let ghost loaded = sim@;
    let ghost controls = spec_control_writes(v, mem.addresses);
    proof {
        assert(controls.take(0) =~= Seq::<(u32, u64)>::empty());
        assert(spec_after_writes(loaded, controls.take(0)) =~= loaded);
        lemma_next_write(loaded, controls, 0);
    }
    if vmwrite(sim, encoding::VMCS_LINK_POINTER, 0xFFFF_FFFF_FFFF_FFFF).is_err() {
        return Err("VMCS link pointer write failed");
    }

    identity_map_ept(mem);
    let eptp = EptPointer::new(mem.addresses.ept_pml4);
    proof {
        lemma_next_write(loaded, controls, 1);
    }
    if vmwrite(sim, encoding::EPT_POINTER, eptp.eptp).is_err() {
        return Err("EPT pointer write failed");
    }

    let pin_controls = adjust_vmx_control(sim, 0, IA32_VMX_PINBASED_CTLS);
    let primary_controls = adjust_vmx_control(
        sim,
        VMX_PROCBASED_USE_SECONDARY,
        IA32_VMX_PROCBASED_CTLS,
    );
    let secondary_controls = adjust_vmx_control(
        sim,
        VMX_PROCBASED2_ENABLE_EPT,
        IA32_VMX_PROCBASED_CTLS2,
    );
    let exit_controls = adjust_vmx_control(sim, 0, IA32_VMX_EXIT_CTLS);
    let entry_controls = adjust_vmx_control(sim, 0, IA32_VMX_ENTRY_CTLS);

    proof {
        lemma_next_write(loaded, controls, 2);
    }
    if vmwrite(sim, encoding::PIN_BASED_VM_EXEC_CONTROL, pin_controls).is_err() {
        return Err("pin controls write failed");
    }
    proof {
        lemma_next_write(loaded, controls, 3);
    }
    if vmwrite(sim, encoding::CPU_BASED_VM_EXEC_CONTROL, primary_controls).is_err() {
        return Err("primary controls write failed");
    }
    proof {
        lemma_next_write(loaded, controls, 4);
    }
    if vmwrite(sim, encoding::SECONDARY_VM_EXEC_CONTROL, secondary_controls).is_err() {
        return Err("secondary controls write failed");
    }
    proof {
        lemma_next_write(loaded, controls, 5);
    }
    if vmwrite(sim, encoding::VM_EXIT_CONTROLS, exit_controls).is_err() {
        return Err("exit controls write failed");
    }
    proof {
        lemma_next_write(loaded, controls, 6);
    }
    if vmwrite(sim, encoding::VM_ENTRY_CONTROLS, entry_controls).is_err() {
        return Err("entry controls write failed");
    }
    assert(controls.take(7) =~= controls);

    let cpu_state = capture_cpu_state(sim);
    let ghost guest = spec_guest_state_writes(cpu_state);
    proof {
        lemma_after_writes_concat(loaded, controls, guest);
    }
    if write_guest_state(sim, &cpu_state).is_err() {
        return Err("guest state write failed");
    }

    let host_stack_top = mem.host_stack_top();
    let ghost host = spec_host_state_writes(cpu_state, HOST_EXIT_STUB, host_stack_top);
    proof {
        lemma_after_writes_concat(loaded, controls + guest, host);
    }
    if write_host_state(sim, &cpu_state, vm_exit_handler_address(), host_stack_top).is_err() {
        return Err("host state write failed");
    }
    assert(controls + guest + host == spec_setup_writes(v, mem.addresses));
    Ok(())
}

/// After a successful `setup_vmcs`, the fields that `VMLAUNCH` checks hold the
/// captured guest RIP and RSP, the VM-exit entry point, the host stack top,
/// the EPT pointer of the PML4 region and the adjusted processor-based controls.
pub proof fn lemma_setup_vmcs_launch_fields(v: SimView, addresses: RegionAddresses)
    requires
        v.vmx_enabled,
    ensures
        ({
            let s = spec_after_setup_vmcs(v, addresses);
            &&& s.vmcs_loaded
            &&& s.vmcs.contains_key(encoding::GUEST_RIP) && s.vmcs[encoding::GUEST_RIP] == v.cpu.rip
            &&& s.vmcs.contains_key(encoding::GUEST_RSP) && s.vmcs[encoding::GUEST_RSP] == v.cpu.rsp
            &&& s.vmcs.contains_key(encoding::HOST_RIP) && s.vmcs[encoding::HOST_RIP] == HOST_EXIT_STUB
            &&& s.vmcs.contains_key(encoding::HOST_RSP) && s.vmcs[encoding::HOST_RSP]
                == spec_host_stack_top(addresses)
            &&& s.vmcs.contains_key(encoding::EPT_POINTER) && s.vmcs[encoding::EPT_POINTER]
                == spec_eptp(addresses.ept_pml4)
            &&& s.vmcs.contains_key(encoding::CPU_BASED_VM_EXEC_CONTROL)
                && s.vmcs[encoding::CPU_BASED_VM_EXEC_CONTROL] == spec_adjust_vmx_control(
                VMX_PROCBASED_USE_SECONDARY,
                v.msr(IA32_VMX_PROCBASED_CTLS),
            )
            &&& s.vmcs.contains_key(encoding::SECONDARY_VM_EXEC_CONTROL)
                && s.vmcs[encoding::SECONDARY_VM_EXEC_CONTROL] == spec_adjust_vmx_control(
                VMX_PROCBASED2_ENABLE_EPT,
                v.msr(IA32_VMX_PROCBASED_CTLS2),
            )
        }),
{
    let w = spec_setup_writes(v, addresses);
    let m = v.vmcs;
    assert(w.len() == 70);
    assert(w[69].0 == encoding::HOST_RSP);
    lemma_apply_writes_last(m, w, 69);
    assert(w[68].0 == encoding::HOST_RIP);
    lemma_apply_writes_last(m, w, 68);
    assert(w[11].0 == encoding::GUEST_RIP);
    lemma_apply_writes_last(m, w, 11);
    assert(w[12].0 == encoding::GUEST_RSP);
    lemma_apply_writes_last(m, w, 12);
    assert(w[1].0 == encoding::EPT_POINTER);
    lemma_apply_writes_last(m, w, 1);
    assert(w[3].0 == encoding::CPU_BASED_VM_EXEC_CONTROL);
    lemma_apply_writes_last(m, w, 3);
    assert(w[4].0 == encoding::SECONDARY_VM_EXEC_CONTROL);
    lemma_apply_writes_last(m, w, 4);
}

/// After a successful VMCS setup the link pointer says "no shadow VMCS", the
/// EPT pointer points at the PML4 region, and each execution control holds
/// the requested bits adjusted to its own capability MSR: every must-be-1 bit
/// of that MSR set, and no bit set that it does not allow.
pub proof fn lemma_setup_vmcs_control_fields(v: SimView, addresses: RegionAddresses)
    requires
        v.vmx_enabled,
    ensures
        ({
            let s = spec_after_setup_vmcs(v, addresses);
            &&& s.vmcs_value(encoding::VMCS_LINK_POINTER) == VMCS_LINK_POINTER_NONE
            &&& s.vmcs_value(encoding::EPT_POINTER) == spec_eptp(addresses.ept_pml4)
            &&& s.vmcs_value(encoding::PIN_BASED_VM_EXEC_CONTROL) == spec_adjust_vmx_control(0, v.msr(IA32_VMX_PINBASED_CTLS))
            &&& spec_control_allowed(s.vmcs_value(encoding::PIN_BASED_VM_EXEC_CONTROL), v.msr(IA32_VMX_PINBASED_CTLS))
            &&& s.vmcs_value(encoding::CPU_BASED_VM_EXEC_CONTROL) == spec_adjust_vmx_control(VMX_PROCBASED_USE_SECONDARY, v.msr(IA32_VMX_PROCBASED_CTLS))
            &&& spec_control_allowed(s.vmcs_value(encoding::CPU_BASED_VM_EXEC_CONTROL), v.msr(IA32_VMX_PROCBASED_CTLS))
            &&& s.vmcs_value(encoding::SECONDARY_VM_EXEC_CONTROL) == spec_adjust_vmx_control(VMX_PROCBASED2_ENABLE_EPT, v.msr(IA32_VMX_PROCBASED_CTLS2))
            &&& spec_control_allowed(s.vmcs_value(encoding::SECONDARY_VM_EXEC_CONTROL), v.msr(IA32_VMX_PROCBASED_CTLS2))
            &&& s.vmcs_value(encoding::VM_EXIT_CONTROLS) == spec_adjust_vmx_control(0, v.msr(IA32_VMX_EXIT_CTLS))
            &&& spec_control_allowed(s.vmcs_value(encoding::VM_EXIT_CONTROLS), v.msr(IA32_VMX_EXIT_CTLS))
            &&& s.vmcs_value(encoding::VM_ENTRY_CONTROLS) == spec_adjust_vmx_control(0, v.msr(IA32_VMX_ENTRY_CTLS))
            &&& spec_control_allowed(s.vmcs_value(encoding::VM_ENTRY_CONTROLS), v.msr(IA32_VMX_ENTRY_CTLS))
        }),
{
    let w = spec_setup_writes(v, addresses);
    assert(w.len() == 70);
    lemma_apply_writes_last(v.vmcs, w, 0);
    lemma_apply_writes_last(v.vmcs, w, 1);
    lemma_apply_writes_last(v.vmcs, w, 2);
    lemma_apply_writes_last(v.vmcs, w, 3);
    lemma_apply_writes_last(v.vmcs, w, 4);
    lemma_apply_writes_last(v.vmcs, w, 5);
    lemma_apply_writes_last(v.vmcs, w, 6);
    lemma_adjust_vmx_control(0, v.msr(IA32_VMX_PINBASED_CTLS));
    lemma_adjust_vmx_control(VMX_PROCBASED_USE_SECONDARY, v.msr(IA32_VMX_PROCBASED_CTLS));
    lemma_adjust_vmx_control(VMX_PROCBASED2_ENABLE_EPT, v.msr(IA32_VMX_PROCBASED_CTLS2));
    lemma_adjust_vmx_control(0, v.msr(IA32_VMX_EXIT_CTLS));
    lemma_adjust_vmx_control(0, v.msr(IA32_VMX_ENTRY_CTLS));
}

/// The guest-area fields keep their values through the host-state writes.
#[verifier::rlimit(60)]
proof fn lemma_host_writes_keep_guest_area(y: SimView, state: CpuState, host_rsp: u64)
    requires
        y.vmcs_loaded,
        spec_guest_area_holds(y, state),
    ensures
        spec_guest_area_holds(
            spec_after_writes(y, spec_host_state_writes(state, HOST_EXIT_STUB, host_rsp)),
            state,
        ),
{
    let host = spec_host_state_writes(state, HOST_EXIT_STUB, host_rsp);
    assert(host.len() == 17);
    lemma_apply_writes_untouched(y.vmcs, host, encoding::GUEST_CR0);
    lemma_apply_writes_untouched(y.vmcs, host, encoding::GUEST_CR3);
    lemma_apply_writes_untouched(y.vmcs, host, encoding::GUEST_CR4);
    lemma_apply_writes_untouched(y.vmcs, host, encoding::GUEST_DR7);
    lemma_apply_writes_untouched(y.vmcs, host, encoding::GUEST_RIP);
    lemma_apply_writes_untouched(y.vmcs, host, encoding::GUEST_RSP);
    lemma_apply_writes_untouched(y.vmcs, host, encoding::GUEST_RFLAGS);
    lemma_apply_writes_untouched(y.vmcs, host, encoding::GUEST_ES_SELECTOR);
    lemma_apply_writes_untouched(y.vmcs, host, encoding::GUEST_ES_BASE);
    lemma_apply_writes_untouched(y.vmcs, host, encoding::GUEST_ES_LIMIT);
    lemma_apply_writes_untouched(y.vmcs, host, encoding::GUEST_ES_ACCESS_RIGHTS);
    lemma_apply_writes_untouched(y.vmcs, host, encoding::GUEST_CS_SELECTOR);
    lemma_apply_writes_untouched(y.vmcs, host, encoding::GUEST_CS_BASE);
    lemma_apply_writes_untouched(y.vmcs, host, encoding::GUEST_CS_LIMIT);
    lemma_apply_writes_untouched(y.vmcs, host, encoding::GUEST_CS_ACCESS_RIGHTS);
    lemma_apply_writes_untouched(y.vmcs, host, encoding::GUEST_SS_SELECTOR);
    lemma_apply_writes_untouched(y.vmcs, host, encoding::GUEST_SS_BASE);
    lemma_apply_writes_untouched(y.vmcs, host, encoding::GUEST_SS_LIMIT);
    lemma_apply_writes_untouched(y.vmcs, host, encoding::GUEST_SS_ACCESS_RIGHTS);
    lemma_apply_writes_untouched(y.vmcs, host, encoding::GUEST_DS_SELECTOR);
    lemma_apply_writes_untouched(y.vmcs, host, encoding::GUEST_DS_BASE);
    lemma_apply_writes_untouched(y.vmcs, host, encoding::GUEST_DS_LIMIT);
    lemma_apply_writes_untouched(y.vmcs, host, encoding::GUEST_DS_ACCESS_RIGHTS);
    lemma_apply_writes_untouched(y.vmcs, host, encoding::GUEST_FS_SELECTOR);
    lemma_apply_writes_untouched(y.vmcs, host, encoding::GUEST_FS_BASE);
    lemma_apply_writes_untouched(y.vmcs, host, encoding::GUEST_FS_LIMIT);
    lemma_apply_writes_untouched(y.vmcs, host, encoding::GUEST_FS_ACCESS_RIGHTS);
    lemma_apply_writes_untouched(y.vmcs, host, encoding::GUEST_GS_SELECTOR);
    lemma_apply_writes_untouched(y.vmcs, host, encoding::GUEST_GS_BASE);
    lemma_apply_writes_untouched(y.vmcs, host, encoding::GUEST_GS_LIMIT);
    lemma_apply_writes_untouched(y.vmcs, host, encoding::GUEST_GS_ACCESS_RIGHTS);
    lemma_apply_writes_untouched(y.vmcs, host, encoding::GUEST_LDTR_SELECTOR);
    lemma_apply_writes_untouched(y.vmcs, host, encoding::GUEST_LDTR_BASE);
    lemma_apply_writes_untouched(y.vmcs, host, encoding::GUEST_LDTR_LIMIT);
    lemma_apply_writes_untouched(y.vmcs, host, encoding::GUEST_LDTR_ACCESS_RIGHTS);
    lemma_apply_writes_untouched(y.vmcs, host, encoding::GUEST_TR_SELECTOR);
    lemma_apply_writes_untouched(y.vmcs, host, encoding::GUEST_TR_BASE);
    lemma_apply_writes_untouched(y.vmcs, host, encoding::GUEST_TR_LIMIT);
    lemma_apply_writes_untouched(y.vmcs, host, encoding::GUEST_TR_ACCESS_RIGHTS);
    lemma_apply_writes_untouched(y.vmcs, host, encoding::GUEST_GDTR_BASE);
    lemma_apply_writes_untouched(y.vmcs, host, encoding::GUEST_GDTR_LIMIT);
    lemma_apply_writes_untouched(y.vmcs, host, encoding::GUEST_IDTR_BASE);
    lemma_apply_writes_untouched(y.vmcs, host, encoding::GUEST_IDTR_LIMIT);
    lemma_apply_writes_untouched(y.vmcs, host, encoding::GUEST_ACTIVITY_STATE);
    lemma_apply_writes_untouched(y.vmcs, host, encoding::GUEST_INTERRUPTIBILITY);
    lemma_apply_writes_untouched(y.vmcs, host, encoding::GUEST_PENDING_DEBUG);
}

/// After a successful VMCS setup every guest-area field holds the captured
/// processor state, and every host-area field holds the captured state, the
/// VM-exit entry point as RIP and the host stack top as RSP.
pub proof fn lemma_setup_vmcs_state_fields(v: SimView, addresses: RegionAddresses)
    requires
        v.vmx_enabled,
    ensures
        spec_guest_area_holds(spec_after_setup_vmcs(v, addresses), v.cpu),
        spec_host_area_holds(
            spec_after_setup_vmcs(v, addresses),
            v.cpu,
            HOST_EXIT_STUB,
            spec_host_stack_top(addresses),
        ),
{
    let loaded = SimView {
        events: v.events.push(SimEvent::Vmptrld { vmcs_pa: addresses.vmcs }),
        vmcs_loaded: v.vmcs_loaded || v.vmx_enabled,
        ..v
    };
    let controls = spec_control_writes(v, addresses);
    let guest = spec_guest_state_writes(v.cpu);
    let host = spec_host_state_writes(v.cpu, HOST_EXIT_STUB, spec_host_stack_top(addresses));
    assert(spec_setup_writes(v, addresses) == controls + guest + host);
    lemma_after_writes_concat(loaded, controls, guest);
    lemma_after_writes_concat(loaded, controls + guest, host);
    let x = spec_after_writes(loaded, controls);
    let y = spec_after_writes(x, guest);
    lemma_guest_state_fields(x, v.cpu);
    lemma_host_state_fields(y, v.cpu, HOST_EXIT_STUB, spec_host_stack_top(addresses));
    lemma_host_writes_keep_guest_area(y, v.cpu, spec_host_stack_top(addresses));
}

} // verus!
