use hlidskjalf::sim;
use hlidskjalf::vmx::bringup::{Action, BringUp, Event, Phase};
use hlidskjalf::vmx::bringup_sim::execute_on_sim;
use hlidskjalf::vmx::exit::reads_exit_qualification;
use hlidskjalf::vmx::memory::{addresses_aligned, RegionAddresses, VmxMemory};
use hlidskjalf::vmx::msr::{
    IA32_FEATURE_CONTROL, IA32_VMX_BASIC, IA32_VMX_CR0_FIXED0, IA32_VMX_CR0_FIXED1,
    IA32_VMX_CR4_FIXED0, IA32_VMX_CR4_FIXED1, IA32_VMX_ENTRY_CTLS, IA32_VMX_EXIT_CTLS,
    IA32_VMX_PINBASED_CTLS, IA32_VMX_PROCBASED_CTLS, IA32_VMX_PROCBASED_CTLS2,
};
use hlidskjalf::vmx::sim::{CrWrite, SimState, HOST_EXIT_STUB};
use hlidskjalf::vmx::vmcs::encoding;
use hlidskjalf::{STATUS_NOT_SUPPORTED, STATUS_SUCCESS, STATUS_UNSUCCESSFUL};

fn addresses() -> RegionAddresses {
    RegionAddresses {
        vmxon: 0x10_1000,
        vmcs: 0x10_2000,
        ept_pml4: 0x10_3000,
        ept_pdpt: 0x10_4000,
        ept_pd: [0x10_5000, 0x10_6000, 0x10_7000, 0x10_8000],
        host_stack: 0x20_0000,
    }
}

/// Runs the machine on the simulated processor and returns every action it asked for.
fn run_on_sim(state: &mut SimState, mem: &mut VmxMemory) -> Vec<Action> {
    let mut machine = BringUp::new(mem.addresses, HOST_EXIT_STUB);
    let mut actions = Vec::new();
    let mut event = Event::Start;
    loop {
        let action = machine.step(mem, event);
        actions.push(action);
        if let Action::Finish { .. } = action {
            return actions;
        }
        event = execute_on_sim(state, action);
    }
}

/// Feeds the machine a scripted list of outcomes and returns its actions.
fn run_scripted(events: &[Event]) -> Vec<Action> {
    let mut mem = Box::new(VmxMemory::new(addresses()));
    let mut machine = BringUp::new(addresses(), 0xFFFF_8000_0000_1000);
    let mut actions = vec![machine.step(&mut mem, Event::Start)];
    for event in events {
        actions.push(machine.step(&mut mem, *event));
    }
    actions
}

const CHECKS_PASS: [Event; 9] = [
    Event::Value(0x20),
    Event::Value(0x0080_0000_0000_001A),
    Event::Value(0x5),
    Event::Value(0x8001_0033),
    Event::Value(0x200),
    Event::Value(0x21),
    Event::Value(0xFFFF_FFFF),
    Event::Value(0x2000),
    Event::Value(0xFFFF_FFFF),
];

#[test]
fn machine_on_sim_asks_for_actions_in_order() {
    let mut state = SimState::new();
    let mut mem = Box::new(VmxMemory::new(addresses()));
    let actions = run_on_sim(&mut state, &mut mem);
    let expected_start = [
        Action::ReadCpuidEcx { leaf: 1 },
        Action::ReadMsr { msr: IA32_VMX_BASIC },
        Action::ReadMsr { msr: IA32_FEATURE_CONTROL },
        Action::ReadCr { index: 0 },
        Action::ReadCr { index: 4 },
        Action::ReadMsr { msr: IA32_VMX_CR0_FIXED0 },
        Action::ReadMsr { msr: IA32_VMX_CR0_FIXED1 },
        Action::ReadMsr { msr: IA32_VMX_CR4_FIXED0 },
        Action::ReadMsr { msr: IA32_VMX_CR4_FIXED1 },
        Action::WriteCr { index: 0, value: 0x8001_0033 },
        Action::WriteCr { index: 4, value: 0x2200 },
        Action::Vmxon { region: 0x10_1000 },
        Action::Vmptrld { vmcs_pa: 0x10_2000 },
        Action::Vmwrite { field: encoding::VMCS_LINK_POINTER, value: u64::MAX },
        Action::Vmwrite { field: encoding::EPT_POINTER, value: 0x10_301E },
        Action::ReadMsr { msr: IA32_VMX_PINBASED_CTLS },
        Action::ReadMsr { msr: IA32_VMX_PROCBASED_CTLS },
        Action::ReadMsr { msr: IA32_VMX_PROCBASED_CTLS2 },
        Action::ReadMsr { msr: IA32_VMX_EXIT_CTLS },
        Action::ReadMsr { msr: IA32_VMX_ENTRY_CTLS },
        Action::Vmwrite { field: encoding::PIN_BASED_VM_EXEC_CONTROL, value: 0 },
        Action::Vmwrite { field: encoding::CPU_BASED_VM_EXEC_CONTROL, value: 0x8000_0000 },
        Action::Vmwrite { field: encoding::SECONDARY_VM_EXEC_CONTROL, value: 0x2 },
        Action::Vmwrite { field: encoding::VM_EXIT_CONTROLS, value: 0 },
        Action::Vmwrite { field: encoding::VM_ENTRY_CONTROLS, value: 0 },
        Action::CaptureCpuState,
    ];
    assert_eq!(&actions[..expected_start.len()], &expected_start[..]);
    // 63 guest and host state writes, VMLAUNCH, then the end.
    assert_eq!(actions.len(), expected_start.len() + 63 + 2);
    assert!(actions[26..89].iter().all(|a| matches!(a, Action::Vmwrite { .. })));
    assert_eq!(actions[89], Action::Vmlaunch);
    assert_eq!(actions[90], Action::Finish { status: STATUS_SUCCESS });
}

#[test]
fn machine_on_sim_matches_driver_entry() {
    let mut by_machine = SimState::new();
    let mut mem_a = Box::new(VmxMemory::new(addresses()));
    run_on_sim(&mut by_machine, &mut mem_a);
    let mut by_entry = SimState::new();
    let mut mem_b = Box::new(VmxMemory::new(addresses()));
    assert_eq!(hlidskjalf::DriverEntry(&mut by_entry, &mut mem_b), STATUS_SUCCESS);
    assert_eq!(sim::events(&by_machine), sim::events(&by_entry));
    assert_eq!(mem_a.vmcs_region.revision_id(), 0x1A);
    assert_eq!(mem_a.ept_pml4.entry(0), mem_b.ept_pml4.entry(0));
}

#[test]
fn machine_stops_without_vmx_cpuid() {
    let actions = run_scripted(&[Event::Value(0)]);
    assert_eq!(actions, vec![
        Action::ReadCpuidEcx { leaf: 1 },
        Action::Finish { status: STATUS_NOT_SUPPORTED },
    ]);
}

#[test]
fn machine_stops_when_feature_control_unlocked() {
    let actions = run_scripted(&[Event::Value(0x20), Event::Value(1 << 55), Event::Value(0x4)]);
    assert_eq!(*actions.last().unwrap(), Action::Finish { status: STATUS_NOT_SUPPORTED });
    assert_eq!(actions.len(), 4);
}

#[test]
fn machine_writes_revision_once_basic_is_read() {
    let mut mem = Box::new(VmxMemory::new(addresses()));
    let mut machine = BringUp::new(addresses(), 0);
    machine.step(&mut mem, Event::Start);
    machine.step(&mut mem, Event::Value(0x20));
    assert_eq!(mem.vmxon_region.revision_id(), 0);
    let action = machine.step(&mut mem, Event::Value(0x0080_0000_0000_0004));
    assert_eq!(action, Action::ReadMsr { msr: IA32_FEATURE_CONTROL });
    assert_eq!(mem.vmxon_region.revision_id(), 4);
    assert_eq!(mem.vmcs_region.revision_id(), 4);
}

#[test]
fn machine_enters_vmx_only_after_both_cr_writes() {
    let actions = run_scripted(&CHECKS_PASS);
    assert_eq!(actions[9], Action::WriteCr { index: 0, value: 0x8001_0033 });
    let mut events = CHECKS_PASS.to_vec();
    events.push(Event::Status(true));
    let actions = run_scripted(&events);
    assert_eq!(actions[10], Action::WriteCr { index: 4, value: 0x2200 });
    events.push(Event::Status(true));
    let actions = run_scripted(&events);
    assert_eq!(actions[11], Action::Vmxon { region: 0x10_1000 });
}

#[test]
fn machine_stops_when_cr4_write_fails() {
    let mut events = CHECKS_PASS.to_vec();
    events.push(Event::Status(true));
    events.push(Event::Status(false));
    let actions = run_scripted(&events);
    assert_eq!(*actions.last().unwrap(), Action::Finish { status: STATUS_NOT_SUPPORTED });
    assert!(!actions.iter().any(|a| matches!(a, Action::Vmxon { .. })));
}

#[test]
fn machine_stops_when_vmxon_fails() {
    let mut events = CHECKS_PASS.to_vec();
    events.extend([Event::Status(true), Event::Status(true), Event::Status(false)]);
    let actions = run_scripted(&events);
    assert_eq!(actions[11], Action::Vmxon { region: 0x10_1000 });
    assert_eq!(actions[12], Action::Finish { status: STATUS_NOT_SUPPORTED });
}

#[test]
fn machine_rejects_an_outcome_of_the_wrong_kind() {
    let actions = run_scripted(&[Event::Status(true)]);
    assert_eq!(actions[1], Action::Finish { status: STATUS_NOT_SUPPORTED });
}

#[test]
fn machine_uses_its_exit_handler_and_reads_error_after_failed_launch() {
    let mut state = SimState::new();
    sim::set_vmlaunch_fail(&mut state, true);
    let mut mem = Box::new(VmxMemory::new(addresses()));
    let mut machine = BringUp::new(addresses(), 0xFFFF_8000_0000_1000);
    let mut event = Event::Start;
    let mut actions = Vec::new();
    loop {
        let action = machine.step(&mut mem, event);
        actions.push(action);
        if let Action::Finish { .. } = action {
            break;
        }
        event = execute_on_sim(&mut state, action);
    }
    assert_eq!(sim::vmcs_field(&state, encoding::HOST_RIP), 0xFFFF_8000_0000_1000);
    assert_eq!(sim::vmcs_field(&state, encoding::HOST_RSP), 0x20_2000);
    let n = actions.len();
    assert_eq!(actions[n - 3], Action::Vmlaunch);
    assert_eq!(actions[n - 2], Action::Vmread { field: encoding::VM_INSTRUCTION_ERROR });
    assert_eq!(actions[n - 1], Action::Finish { status: STATUS_UNSUCCESSFUL });
    assert_eq!(machine.phase, Phase::Finished);
    assert_eq!(machine.step(&mut mem, Event::Start), Action::Finish { status: STATUS_UNSUCCESSFUL });
}

#[test]
fn sim_executes_cr_writes_and_records_them_apart() {
    let mut state = SimState::new();
    assert_eq!(execute_on_sim(&mut state, Action::WriteCr { index: 4, value: 0x2200 }), Event::Status(true));
    assert_eq!(execute_on_sim(&mut state, Action::ReadCr { index: 4 }), Event::Value(0x2200));
    assert!(sim::events(&state).is_empty());
    assert_eq!(state.cr_writes, vec![CrWrite { index: 4, value: 0x2200, vmx_events_before: 0 }]);
    assert_eq!(execute_on_sim(&mut state, Action::WriteCr { index: 7, value: 1 }), Event::Status(false));
    assert_eq!(state.cr_writes.len(), 1);
    assert_eq!(execute_on_sim(&mut state, Action::ReadCr { index: 7 }), Event::Value(0));
    assert_eq!(execute_on_sim(&mut state, Action::Vmptrld { vmcs_pa: 0x2000 }), Event::Status(false));
    assert_eq!(execute_on_sim(&mut state, Action::Vmread { field: 0x4400 }), Event::Status(false));
}

#[test]
fn cpuid_leaf_persists_across_other_operations() {
    let mut state = SimState::new();
    sim::set_cpuid_ecx(&mut state, 7, 0x1234);
    sim::set_cpuid_ecx(&mut state, 1, 0);
    sim::set_msr(&mut state, IA32_VMX_BASIC, 0);
    assert!(sim::vmxon(&mut state, 0x1000));
    assert_eq!(sim::cpuid_ecx(&state, 7), Some(0x1234));
    assert_eq!(sim::cpuid_ecx(&state, 1), Some(0));
    sim::reset(&mut state);
    assert_eq!(sim::cpuid_ecx(&state, 7), None);
    assert_eq!(sim::cpuid_ecx(&state, 1), Some(0x20));
}

#[test]
fn vmx_operation_and_current_vmcs_persist_until_reset() {
    let mut state = SimState::new();
    assert!(sim::vmxon(&mut state, 0x1000));
    sim::set_vmxon_fail(&mut state, true);
    assert!(!sim::vmxon(&mut state, 0x1000));
    assert!(sim::vmptrld(&mut state, 0x2000));
    sim::set_vmlaunch_fail(&mut state, true);
    assert!(sim::vmlaunch(&mut state).is_err());
    assert!(sim::vmwrite(&mut state, encoding::GUEST_RIP, 5).is_ok());
    sim::reset(&mut state);
    assert!(!sim::vmptrld(&mut state, 0x2000));
    assert!(sim::vmwrite(&mut state, encoding::GUEST_RIP, 5).is_err());
}

#[test]
fn read_returns_last_write_despite_other_writes() {
    let mut state = SimState::new();
    assert!(sim::vmxon(&mut state, 0x1000));
    assert!(sim::vmptrld(&mut state, 0x2000));
    assert!(sim::vmwrite(&mut state, encoding::GUEST_RIP, 0x1111).is_ok());
    assert!(sim::vmwrite(&mut state, encoding::GUEST_RSP, 0x2222).is_ok());
    assert!(sim::vmwrite(&mut state, encoding::HOST_RIP, 0x3333).is_ok());
    let before = sim::events(&state).len();
    assert_eq!(sim::vmread(&mut state, encoding::GUEST_RIP), Ok(0x1111));
    assert_eq!(sim::vmread(&mut state, encoding::EPT_POINTER), Ok(0));
    assert_eq!(sim::events(&state).len(), before + 2);
}

#[test]
fn misaligned_region_addresses_are_rejected() {
    assert!(addresses_aligned(&addresses()));
    let mut a = addresses();
    a.ept_pd[3] = 0x10_8008;
    assert!(!addresses_aligned(&a));
    let mut b = addresses();
    b.host_stack = 0x20_0008;
    assert!(!addresses_aligned(&b));
    let mut c = addresses();
    c.vmcs = 0x10_2800;
    assert!(!addresses_aligned(&c));
    for offset in [1u64, 8, 0x800, 0xFFF] {
        let mut d = addresses();
        d.vmxon += offset;
        assert!(!addresses_aligned(&d));
        let mut e = addresses();
        e.ept_pml4 += offset;
        assert!(!addresses_aligned(&e));
        let mut f = addresses();
        f.ept_pdpt += offset;
        assert!(!addresses_aligned(&f));
    }
}

#[test]
fn exit_qualification_is_read_for_ept_violations_only() {
    assert!(reads_exit_qualification(48));
    assert!(reads_exit_qualification(0x8000_0030));
    assert!(!reads_exit_qualification(10));
    assert!(!reads_exit_qualification(0x30_0000));
}

#[test]
fn region_bytes_carry_the_revision_identifier() {
    let mut mem = Box::new(VmxMemory::new(addresses()));
    mem.vmxon_region.set_revision_id(0x1234_5678);
    let bytes = mem.vmxon_region.as_bytes();
    assert_eq!(&bytes[..5], &[0x78, 0x56, 0x34, 0x12, 0]);
}

#[test]
fn machine_stops_when_a_vmwrite_fails_midway() {
    let mut events = CHECKS_PASS.to_vec();
    events.extend([Event::Status(true); 6]);
    events.extend([Event::Value(0); 5]);
    events.push(Event::Status(true));
    events.push(Event::Status(false));
    let actions = run_scripted(&events);
    let n = actions.len();
    assert_eq!(
        actions[n - 2],
        Action::Vmwrite { field: encoding::CPU_BASED_VM_EXEC_CONTROL, value: 0 }
    );
    assert_eq!(actions[n - 1], Action::Finish { status: STATUS_NOT_SUPPORTED });
    assert!(!actions.iter().any(|a| matches!(a, Action::Vmlaunch)));
}

#[test]
fn cr4_write_sets_vmxe_when_fixed1_allows() {
    let mut events = CHECKS_PASS.to_vec();
    events[4] = Event::Value(0);
    events[7] = Event::Value(0);
    events[8] = Event::Value(0x2000);
    events.push(Event::Status(true));
    let actions = run_scripted(&events);
    assert_eq!(actions[10], Action::WriteCr { index: 4, value: 0x2000 });
}
