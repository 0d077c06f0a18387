//! VM-exit dispatch.
use vstd::prelude::*;

use super::context::GuestContext;
use super::sim::{SimEvent, SimState, SimView};
use super::vmcs::{encoding, vmread};

verus! {

/// Basic exit reason of a `CPUID` exit.
pub const VM_EXIT_REASON_CPUID: u64 = 10;
/// Basic exit reason of an EPT violation.
pub const VM_EXIT_REASON_EPT_VIOLATION: u64 = 48;

/// The basic exit reason (bits 15:0 of the exit-reason field).
pub open spec fn spec_basic_exit_reason(v: SimView) -> u64 {
    v.vmcs_value(encoding::VM_EXIT_REASON) & 0xFFFF
}

/// The processor state after the VM-exit handler: with a current VMCS it reads
/// the exit reason, the exit qualification for an EPT violation, then the
/// guest RSP; without one every read fails and nothing changes.
pub open spec fn spec_after_vm_exit(v: SimView) -> SimView {
    if !v.vmcs_loaded {
        v
    } else if spec_basic_exit_reason(v) == VM_EXIT_REASON_EPT_VIOLATION {
        SimView {
            events: v.events.push(SimEvent::Vmread { field: encoding::VM_EXIT_REASON }).push(
                SimEvent::Vmread { field: encoding::VM_EXIT_QUALIFICATION },
            ).push(SimEvent::Vmread { field: encoding::GUEST_RSP }),
            ..v
        }
    } else {
        SimView {
            events: v.events.push(SimEvent::Vmread { field: encoding::VM_EXIT_REASON }).push(
                SimEvent::Vmread { field: encoding::GUEST_RSP },
            ),
            ..v
        }
    }
}

/// Whether the handler of an exit with this exit-reason field reads the exit
/// qualification: exactly for EPT violations.
pub fn reads_exit_qualification(reason: u64) -> (reads: bool)
    ensures
        reads == (reason & 0xFFFF == VM_EXIT_REASON_EPT_VIOLATION),
{
    reason & 0xFFFF == VM_EXIT_REASON_EPT_VIOLATION
}

/// `CPUID` exits leave the guest registers as they are.
fn handle_cpuid(_context: &mut GuestContext)
    ensures
        *final(_context) == *old(_context),
{
}

/// EPT violations read the exit qualification.
fn handle_ept_violation(sim: &mut SimState)
    ensures
        old(sim)@.vmcs_loaded ==> final(sim)@ == (SimView {
            events: old(sim)@.events.push(SimEvent::Vmread { field: encoding::VM_EXIT_QUALIFICATION }),
            ..old(sim)@
        }),
        !old(sim)@.vmcs_loaded ==> final(sim)@ == old(sim)@,
{
    let _ = vmread(sim, encoding::VM_EXIT_QUALIFICATION);
}

/// VM-exit handler: dispatches on the basic exit reason, then reads the guest RSP.
pub fn vm_exit_handler_rust(sim: &mut SimState, context: &mut GuestContext)
    ensures
        final(sim)@ == spec_after_vm_exit(old(sim)@),
        *final(context) == *old(context),
{
    if let Ok(reason) = vmread(sim, encoding::VM_EXIT_REASON) {
        let basic_reason = reason & 0xFFFF;
        if basic_reason == VM_EXIT_REASON_CPUID {
            handle_cpuid(context);
        } else if reads_exit_qualification(reason) {
            handle_ept_violation(sim);
        }
    }
    if let Ok(guest_rsp) = vmread(sim, encoding::GUEST_RSP) {
        let _ = guest_rsp;
    }
}

} // verus!
