# hlidskjalf

The bring-up logic of a thin Intel VT-x hypervisor, verified with Verus.

The bring-up is a state machine (`vmx::bringup::BringUp`): each step takes
the outcome of the previous processor action (a value read, whether an
instruction succeeded, the captured processor state) and returns the next
action (CPUID, RDMSR, CR read/write, VMXON, VMPTRLD, VMWRITE, VMREAD,
VMLAUNCH) or the final NTSTATUS. Its contract fixes the order of the actions
for every sequence of outcomes.

Two processors execute those actions:

- a model of a VMX-capable processor (`vmx::sim::SimState`: MSRs, CPUID,
  control registers, the current VMCS, a log of the VMX instructions executed
  and, apart from it, a record of the control-register writes),
  verified in `src/`; `DriverEntry` runs the machine on it and is proved to
  end in the state, status and memory that the bring-up's specification gives;
- the real CPU, in `app/`, through inline assembly.

Layout:

- `src/lib.rs` — VMX capability check and the driver entry (`DriverEntry`).
- `src/vmx/` — one module per concern: `bringup` (the state machine and its
  laws), `bringup_sim` (the model executing its actions), `msr` (capability
  and fixed-bit adjustments), `init` (entering VMX operation), `memory` (the
  4 KiB regions, host stack and their alignment), `ept` (EPT entries, EPT
  pointer, identity map), `state` (captured processor state, guest/host area
  writes), `vmcs` (field access), `config` (VMCS setup), `vmlaunch`, `exit`
  (VM-exit dispatch), `sim` (the processor model and its laws).
- `app/` — what Verus does not check: the page-aligned hardware pages, the
  C-ABI entry points, the execution of the machine's actions on the real
  CPU, the simulated processor as a per-thread global, and the `repr(C)`
  register block of the VM-exit entry point.
- `tests/` — unit, bring-up and state-machine scenario tests.
