use vstd::prelude::*;

use super::sim::{SimEvent, SimState, SimView};
use super::vmcs::{encoding, vm_instruction_error};

verus! {

/// Failure of `VMLAUNCH`, carrying the VM-instruction error number.
#[derive(Debug, Clone, Copy, PartialEq, Eq)]
pub enum VmxLaunchError {
    VmlaunchFailed(u32),
}

/// The processor state after `VMLAUNCH` and, when it failed, the read of the
/// VM-instruction error field.
pub open spec fn spec_after_vmlaunch(v: SimView) -> SimView {
    let launched = v.after_launch();
    if !v.launch_succeeds() && v.vmcs_loaded {
        SimView {
            events: launched.events.push(SimEvent::Vmread { field: encoding::VM_INSTRUCTION_ERROR }),
            ..launched
        }
    } else {
        launched
    }
}

/// The result of `VMLAUNCH`: on failure the VM-instruction error number, or 0
/// when no VMCS is current to read it from.
pub open spec fn spec_vmlaunch_result(v: SimView) -> Result<(), VmxLaunchError> {
    if v.launch_succeeds() {
        Ok(())
    } else if v.vmcs_loaded {
        Err(VmxLaunchError::VmlaunchFailed(v.launch_error_number()))
    } else {
        Err(VmxLaunchError::VmlaunchFailed(0))
    }
}

/// Execute `VMLAUNCH`; on failure, report the VM-instruction error.
pub fn vmlaunch(sim: &mut SimState) -> (r: Result<(), VmxLaunchError>)
    ensures
        r == spec_vmlaunch_result(old(sim)@),
        final(sim)@ == spec_after_vmlaunch(old(sim)@),
{
    match super::sim::vmlaunch(sim) {
        Ok(()) => Ok(()),
        Err(_) => {
            let error = vm_instruction_error(sim);
            Err(VmxLaunchError::VmlaunchFailed(error))
        },
    }
}

} // verus!
