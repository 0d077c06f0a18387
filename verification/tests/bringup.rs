use hlidskjalf::sim;
use hlidskjalf::vmx::context::GuestContext;
use hlidskjalf::vmx::ept::{identity_map_ept, EptTable};
use hlidskjalf::vmx::exit::vm_exit_handler_rust;
use hlidskjalf::vmx::init::{enable_vmx, vmxoff};
use hlidskjalf::vmx::memory::{RegionAddresses, VmxMemory, VmxRegion};
use hlidskjalf::vmx::msr::{
    adjust_cr0_for_vmx, adjust_cr4_for_vmx, adjust_vmx_control, rdmsr, IA32_FEATURE_CONTROL,
    IA32_VMX_BASIC, IA32_VMX_PROCBASED_CTLS,
};
use hlidskjalf::vmx::sim::{CrWrite, SimEvent, SimState};
use hlidskjalf::vmx::state::{
    cpu_state_from_registers, write_guest_state, write_host_state, CpuState, RawCpuRegisters,
    SegmentState,
};
use hlidskjalf::vmx::vmcs::{encoding, vm_instruction_error, vmread, vmwrite, VmcsError};
use hlidskjalf::vmx::vmlaunch::{vmlaunch, VmxLaunchError};
use hlidskjalf::vmx::config::setup_vmcs;
use hlidskjalf::{DriverEntry, STATUS_NOT_SUPPORTED, STATUS_SUCCESS, STATUS_UNSUCCESSFUL};

fn test_addresses() -> RegionAddresses {
    RegionAddresses {
        vmxon: 0x10_1000,
        vmcs: 0x10_2000,
        ept_pml4: 0x10_3000,
        ept_pdpt: 0x10_4000,
        ept_pd: [0x10_5000, 0x10_6000, 0x10_7000, 0x10_8000],
        host_stack: 0x20_0000,
    }
}

fn boxed_memory() -> Box<VmxMemory> {
    Box::new(VmxMemory::new(test_addresses()))
}

#[test]
fn driver_entry_completes_full_simulated_bringup() {
    let mut state = SimState::new();
    let mut mem = boxed_memory();
    sim::reset(&mut state);

    let status = DriverEntry(&mut state, &mut mem);
    assert_eq!(status, STATUS_SUCCESS);

    let events = sim::events(&state);
    assert!(events.iter().any(|e| matches!(e, SimEvent::Vmxon { .. })));
    assert!(events.iter().any(|e| matches!(e, SimEvent::Vmptrld { .. })));
    assert!(events.iter().any(|e| matches!(e, SimEvent::Vmlaunch)));
    assert_ne!(sim::vmcs_field(&state, encoding::EPT_POINTER), 0);
    assert_eq!(sim::vmcs_field(&state, encoding::HOST_RIP), sim::HOST_EXIT_STUB);
}

#[test]
fn driver_entry_rejects_missing_vmx_cpuid() {
    let mut state = SimState::new();
    let mut mem = boxed_memory();
    sim::reset(&mut state);
    sim::set_cpuid_ecx(&mut state, 1, 0);

    let status = DriverEntry(&mut state, &mut mem);
    assert_eq!(status, STATUS_NOT_SUPPORTED);
}

#[test]
fn driver_entry_rejects_failed_vmxon() {
    let mut state = SimState::new();
    let mut mem = boxed_memory();
    sim::reset(&mut state);
    sim::set_vmxon_fail(&mut state, true);

    let status = DriverEntry(&mut state, &mut mem);
    assert_eq!(status, STATUS_NOT_SUPPORTED);
}

#[test]
fn failed_vmxon_logs_only_the_vmxon() {
    let mut state = SimState::new();
    let mut mem = boxed_memory();
    sim::set_vmxon_fail(&mut state, true);
    assert_eq!(DriverEntry(&mut state, &mut mem), STATUS_NOT_SUPPORTED);
    assert_eq!(sim::events(&state), vec![SimEvent::Vmxon { region: 0x10_1000 }]);
    assert_eq!(state.cr_writes.len(), 2);
}

#[test]
fn driver_entry_rejects_failed_vmlaunch() {
    let mut state = SimState::new();
    let mut mem = boxed_memory();
    sim::reset(&mut state);
    sim::set_vmlaunch_fail(&mut state, true);

    let status = DriverEntry(&mut state, &mut mem);
    assert_eq!(status, STATUS_UNSUCCESSFUL);
}

#[test]
fn vmxon_region_gets_revision_id_in_sim() {
    let mut state = SimState::new();
    let mut mem = boxed_memory();
    sim::reset(&mut state);
    let _ = DriverEntry(&mut state, &mut mem);
    let revision = mem.vmxon_region.revision_id();
    assert_eq!(revision, 0x1A);
}

#[test]
fn defaults_allow_vmxon() {
    let mut state = SimState::new();
    sim::reset(&mut state);
    assert!(sim::vmxon(&mut state, 0x1000));
    assert!(sim::events(&state).iter().any(|e| matches!(e, SimEvent::Vmxon { .. })));
}

#[test]
fn bringup_event_log_is_exact() {
    let mut state = SimState::new();
    let mut mem = boxed_memory();
    let status = DriverEntry(&mut state, &mut mem);
    assert_eq!(status, STATUS_SUCCESS);
    let events = sim::events(&state);
    assert_eq!(events[0], SimEvent::Vmxon { region: 0x10_1000 });
    assert_eq!(events[1], SimEvent::Vmptrld { vmcs_pa: 0x10_2000 });
    assert_eq!(
        events[2],
        SimEvent::Vmwrite { field: encoding::VMCS_LINK_POINTER, value: u64::MAX }
    );
    assert_eq!(
        events[3],
        SimEvent::Vmwrite { field: encoding::EPT_POINTER, value: 0x10_301E }
    );
    // VMXON, VMPTRLD, 7 control writes, 46 guest-state writes, 17 host-state
    // writes, then VMLAUNCH.
    assert_eq!(events.len(), 2 + 7 + 46 + 17 + 1);
    // CR0 and then CR4 were written before any VMX instruction.
    assert_eq!(
        state.cr_writes,
        vec![
            CrWrite { index: 0, value: 0x8001_0033, vmx_events_before: 0 },
            CrWrite { index: 4, value: 0x2200, vmx_events_before: 0 },
        ]
    );
    assert_eq!(*events.last().unwrap(), SimEvent::Vmlaunch);
}

#[test]
fn bringup_writes_expected_vmcs_fields() {
    let mut state = SimState::new();
    let mut mem = boxed_memory();
    assert_eq!(DriverEntry(&mut state, &mut mem), STATUS_SUCCESS);
    let cpu = sim::cpu_state(&state);
    assert_eq!(sim::vmcs_field(&state, encoding::GUEST_RIP), cpu.rip);
    assert_eq!(sim::vmcs_field(&state, encoding::GUEST_RSP), cpu.rsp);
    assert_eq!(sim::vmcs_field(&state, encoding::HOST_RSP), 0x20_0000 + 8192);
    assert_eq!(sim::vmcs_field(&state, encoding::CPU_BASED_VM_EXEC_CONTROL), 1 << 31);
    assert_eq!(sim::vmcs_field(&state, encoding::SECONDARY_VM_EXEC_CONTROL), 1 << 1);
    assert_eq!(sim::vmcs_field(&state, encoding::PIN_BASED_VM_EXEC_CONTROL), 0);
    assert_eq!(sim::vmcs_field(&state, encoding::VMCS_LINK_POINTER), u64::MAX);
    assert_eq!(sim::vmcs_field(&state, encoding::GUEST_CS_ACCESS_RIGHTS), 0xA09B);
    assert_eq!(sim::vmcs_field(&state, encoding::GUEST_TR_LIMIT), cpu.tr.limit as u64);
    assert_eq!(sim::vmcs_field(&state, encoding::GUEST_IDTR_LIMIT), cpu.idtr_limit as u64);
    assert_eq!(sim::vmcs_field(&state, 0x0C00), cpu.es.selector as u64);
    assert_eq!(sim::vmcs_field(&state, 0x0C04), cpu.ss.selector as u64);
    assert_eq!(sim::vmcs_field(&state, 0x0C06), cpu.ds.selector as u64);
    assert_eq!(sim::read_cr(&state, 4), 0x2200);
    assert_eq!(sim::read_cr(&state, 0), 0x8001_0033);
}

#[test]
fn bringup_builds_identity_map() {
    let mut state = SimState::new();
    let mut mem = boxed_memory();
    assert_eq!(DriverEntry(&mut state, &mut mem), STATUS_SUCCESS);
    assert_eq!(mem.ept_pml4.entry(0), 0x10_4007);
    assert_eq!(mem.ept_pml4.entry(1), 0);
    assert_eq!(mem.ept_pdpt.entry(0), 0x10_5007);
    assert_eq!(mem.ept_pdpt.entry(3), 0x10_8007);
    assert_eq!(mem.ept_pdpt.entry(4), 0);
    assert_eq!(mem.ept_pd_pages.pages[3].entry(10), 0xC140_0087);
    assert_eq!(mem.ept_pd_pages.pages[0].entry(0), 0x87);
    assert_eq!(mem.ept_pd_pages.pages[1].entry(511), 0x7FE0_0087);
    assert_eq!(mem.vmcs_region.revision_id(), 0x1A);
}

#[test]
fn missing_64bit_vmx_is_not_supported() {
    let mut state = SimState::new();
    let mut mem = boxed_memory();
    sim::set_msr(&mut state, IA32_VMX_BASIC, 0x1A);
    assert_eq!(DriverEntry(&mut state, &mut mem), STATUS_NOT_SUPPORTED);
    assert!(sim::events(&state).is_empty());
    assert_eq!(mem.vmxon_region.revision_id(), 0);
}

#[test]
fn enable_vmx_reports_each_failure() {
    let mut state = SimState::new();
    let mut mem = boxed_memory();
    sim::set_msr(&mut state, IA32_VMX_BASIC, 0x1A);
    assert_eq!(enable_vmx(&mut state, &mut mem), Err("64-bit VMX not supported"));

    let mut state = SimState::new();
    sim::set_msr(&mut state, IA32_FEATURE_CONTROL, 0x4);
    assert_eq!(enable_vmx(&mut state, &mut mem), Err("IA32_FEATURE_CONTROL is not locked"));
    assert_eq!(mem.vmxon_region.revision_id(), 0x1A);

    let mut state = SimState::new();
    sim::set_msr(&mut state, IA32_FEATURE_CONTROL, 0x1);
    assert_eq!(enable_vmx(&mut state, &mut mem), Err("VMX disabled outside SMX"));

    let mut state = SimState::new();
    sim::set_vmxon_fail(&mut state, true);
    assert_eq!(enable_vmx(&mut state, &mut mem), Err("VMXON failed"));

    let mut state = SimState::new();
    assert_eq!(enable_vmx(&mut state, &mut mem), Ok(()));
    assert!(state.vmx_enabled);
}

#[test]
fn setup_vmcs_requires_vmx_operation() {
    let mut state = SimState::new();
    let mut mem = boxed_memory();
    assert_eq!(setup_vmcs(&mut state, &mut mem), Err("VMPTRLD failed"));
    assert_eq!(sim::events(&state), vec![SimEvent::Vmptrld { vmcs_pa: 0x10_2000 }]);
    assert_eq!(mem.ept_pml4.entry(0), 0);
}

#[test]
fn launch_without_host_stack_pointer_fails_with_code_7() {
    let mut state = SimState::new();
    assert!(sim::vmxon(&mut state, 0x1000));
    assert!(sim::vmptrld(&mut state, 0x2000));
    for field in [
        encoding::GUEST_RIP,
        encoding::GUEST_RSP,
        encoding::HOST_RIP,
        encoding::EPT_POINTER,
        encoding::CPU_BASED_VM_EXEC_CONTROL,
        encoding::SECONDARY_VM_EXEC_CONTROL,
    ] {
        assert_eq!(vmwrite(&mut state, field, 1), Ok(()));
    }
    assert_eq!(vmlaunch(&mut state), Err(VmxLaunchError::VmlaunchFailed(7)));
    assert_eq!(vmwrite(&mut state, encoding::HOST_RSP, 0x8000), Ok(()));
    assert_eq!(vmlaunch(&mut state), Ok(()));
}

#[test]
fn launch_without_vmcs_reports_error_zero() {
    let mut state = SimState::new();
    assert_eq!(vmlaunch(&mut state), Err(VmxLaunchError::VmlaunchFailed(0)));
    assert_eq!(sim::vmlaunch(&mut state), Err(VmxLaunchError::VmlaunchFailed(11)));
    assert_eq!(sim::vmcs_field(&state, encoding::VM_INSTRUCTION_ERROR), 11);
}

#[test]
fn vmcs_access_needs_current_vmcs() {
    let mut state = SimState::new();
    assert_eq!(vmwrite(&mut state, encoding::GUEST_RIP, 5), Err(VmcsError::VmwriteFailed));
    assert_eq!(vmread(&mut state, encoding::GUEST_RIP), Err(VmcsError::VmreadFailed));
    assert_eq!(vm_instruction_error(&mut state), 0);
    assert!(sim::events(&state).is_empty());
    assert!(!sim::vmptrld(&mut state, 0x2000));
    assert!(sim::vmxon(&mut state, 0x1000));
    assert!(sim::vmptrld(&mut state, 0x2000));
    assert_eq!(vmwrite(&mut state, encoding::GUEST_RIP, 5), Ok(()));
    assert_eq!(vmread(&mut state, encoding::GUEST_RIP), Ok(5));
    assert_eq!(vmread(&mut state, encoding::GUEST_RSP), Ok(0));
}

#[test]
fn vm_exit_handler_reads_qualification_on_ept_violation() {
    let mut state = SimState::new();
    assert!(sim::vmxon(&mut state, 0x1000));
    assert!(sim::vmptrld(&mut state, 0x2000));
    assert_eq!(vmwrite(&mut state, encoding::VM_EXIT_REASON, 0x8000_0030), Ok(()));
    let mut context = GuestContext { rax: 1, ..GuestContext::default() };
    vm_exit_handler_rust(&mut state, &mut context);
    assert_eq!(context.rax, 1);
    let events = sim::events(&state);
    assert_eq!(
        &events[3..],
        &[
            SimEvent::Vmread { field: encoding::VM_EXIT_REASON },
            SimEvent::Vmread { field: encoding::VM_EXIT_QUALIFICATION },
            SimEvent::Vmread { field: encoding::GUEST_RSP },
        ]
    );
}

#[test]
fn vm_exit_handler_on_cpuid_exit_reads_reason_and_rsp() {
    let mut state = SimState::new();
    assert!(sim::vmxon(&mut state, 0x1000));
    assert!(sim::vmptrld(&mut state, 0x2000));
    assert_eq!(vmwrite(&mut state, encoding::VM_EXIT_REASON, 10), Ok(()));
    let mut context = GuestContext::default();
    vm_exit_handler_rust(&mut state, &mut context);
    assert_eq!(sim::events(&state).len(), 5);
}

#[test]
fn cr_adjustments_apply_fixed_bits() {
    let mut state = SimState::new();
    assert_eq!(adjust_cr0_for_vmx(&state, 0), 1);
    assert_eq!(adjust_cr4_for_vmx(&state, 0x200), 0x2200);
    sim::set_msr(&mut state, hlidskjalf::vmx::msr::IA32_VMX_CR0_FIXED1, 0xFF);
    assert_eq!(adjust_cr0_for_vmx(&state, 0x8001_0033), 0x33);
    assert_eq!(adjust_vmx_control(&state, 0x8000_0000, IA32_VMX_PROCBASED_CTLS), 0x8000_0000);
    assert_eq!(rdmsr(&state, 0x1234), 0);
}

#[test]
fn region_revision_roundtrip_and_entries() {
    let mut region = VmxRegion::new();
    region.set_revision_id(0xDEAD_BEEF);
    assert_eq!(region.revision_id(), 0xDEAD_BEEF);
    assert_eq!(region.entry(0), 0xDEAD_BEEF);
    let mut table = EptTable::new();
    table.entries[5] = 0x0102_0304_0506_0708;
    region.store_table(&table);
    assert_eq!(region.entry(5), 0x0102_0304_0506_0708);
    assert_eq!(region.revision_id(), 0);
}

#[test]
fn identity_map_leaves_other_regions_alone() {
    let mut mem = boxed_memory();
    mem.vmcs_region.set_revision_id(7);
    identity_map_ept(&mut mem);
    assert_eq!(mem.vmcs_region.revision_id(), 7);
    assert_eq!(mem.ept_pd_pages.pages[2].entry(1), 0x8020_0087);
}

#[test]
fn host_state_write_records_rip_and_rsp() {
    let mut state = SimState::new();
    let cpu = sim::cpu_state(&state);
    assert_eq!(write_host_state(&mut state, &cpu, 1, 2), Err(VmcsError::VmwriteFailed));
    assert!(sim::vmxon(&mut state, 0x1000));
    assert!(sim::vmptrld(&mut state, 0x2000));
    assert_eq!(write_host_state(&mut state, &cpu, 0x1111, 0x2222), Ok(()));
    assert_eq!(sim::vmcs_field(&state, encoding::HOST_RIP), 0x1111);
    assert_eq!(sim::vmcs_field(&state, encoding::HOST_RSP), 0x2222);
}

#[test]
fn captured_registers_build_segments() {
    let regs = RawCpuRegisters { ss: 0x18, fs: 0x57, fs_base: 0x7000, gdtr_limit: 0x7F, ..Default::default() };
    let cpu = cpu_state_from_registers(&regs);
    assert_eq!(cpu.ss.access_rights, 0xA000);
    assert_eq!(cpu.fs.access_rights, 0x1_A000);
    assert_eq!(cpu.fs.base, 0x7000);
    assert_eq!(cpu.cs.access_rights, 0xA09B);
    assert_eq!(cpu.ldtr.access_rights, 0x1_0000);
    assert_eq!(cpu.tr.limit, 0x67);
    assert_eq!(cpu.gdtr_limit, 0x7F);
}

#[test]
fn vmxoff_always_succeeds_in_simulation() {
    assert!(vmxoff());
}

#[test]
fn host_stack_top_wraps() {
    let mem = boxed_memory();
    assert_eq!(mem.host_stack_top(), 0x20_2000);
    assert_eq!(mem.host_stack.top(u64::MAX - 15), 8176);
}

#[test]
fn identity_map_translates_addresses_to_themselves() {
    let mut mem = boxed_memory();
    identity_map_ept(&mut mem);
    for gpa in [0u64, 0x1234, 0x20_0000, 0x7FFF_FFFF, 0xC140_0ABC, 0xFFFF_FFFF] {
        let pml4e = mem.ept_pml4.entry(((gpa >> 39) & 0x1FF) as usize);
        assert_eq!(pml4e & 0xFFFF_FFFF_F000, mem.addresses.ept_pdpt);
        let gb = ((gpa >> 30) & 0x1FF) as usize;
        let pdpte = mem.ept_pdpt.entry(gb);
        assert_eq!(pdpte & 0xFFFF_FFFF_F000, mem.addresses.ept_pd[gb]);
        let pde = mem.ept_pd_pages.pages[gb].entry(((gpa >> 21) & 0x1FF) as usize);
        assert_eq!(pde & 0x87, 0x87);
        assert_eq!((pde & 0x000F_FFFF_FFE0_0000) | (gpa & 0x1F_FFFF), gpa);
    }
}

#[test]
fn bringup_keeps_earlier_log_entries() {
    let mut state = SimState::new();
    let mut mem = boxed_memory();
    assert!(sim::vmxon(&mut state, 0x42));
    assert_eq!(DriverEntry(&mut state, &mut mem), STATUS_SUCCESS);
    let events = sim::events(&state);
    assert_eq!(events[0], SimEvent::Vmxon { region: 0x42 });
    assert_eq!(events[1], SimEvent::Vmxon { region: 0x10_1000 });
    assert_eq!(state.cr_writes[0].vmx_events_before, 1);
    assert_eq!(state.cr_writes[1].vmx_events_before, 1);
}

#[test]
fn zero_guest_rip_makes_launch_unsuccessful() {
    let mut state = SimState::new();
    let mut mem = boxed_memory();
    state.cpu.rip = 0;
    assert_eq!(DriverEntry(&mut state, &mut mem), STATUS_UNSUCCESSFUL);
    assert_eq!(sim::vmcs_field(&state, encoding::VM_INSTRUCTION_ERROR), 7);
    assert_eq!(*sim::events(&state).last().unwrap(), SimEvent::Vmread { field: encoding::VM_INSTRUCTION_ERROR });
}

#[test]
fn guest_tr_and_idtr_limits_go_to_their_own_fields() {
    let mut state = SimState::new();
    assert!(sim::vmxon(&mut state, 0x1000));
    assert!(sim::vmptrld(&mut state, 0x2000));
    let cpu = CpuState {
        tr: SegmentState { selector: 0x40, base: 0, limit: 0x67, access_rights: 0x8B },
        gdtr_limit: 0x7F,
        idtr_limit: 0xFFF,
        ..Default::default()
    };
    assert_eq!(write_guest_state(&mut state, &cpu), Ok(()));
    assert_eq!(sim::vmcs_field(&state, 0x480E), 0x67);
    assert_eq!(sim::vmcs_field(&state, 0x4812), 0xFFF);
    assert_eq!(sim::vmcs_field(&state, 0x4810), 0x7F);
    assert_eq!(sim::vmcs_field(&state, 0x080E), 0x40);
    assert_eq!(sim::vmcs_field(&state, 0x4822), 0x8B);
}

#[test]
fn host_segment_selectors_go_to_their_own_fields() {
    let mut state = SimState::new();
    assert!(sim::vmxon(&mut state, 0x1000));
    assert!(sim::vmptrld(&mut state, 0x2000));
    let mut cpu = CpuState::default();
    cpu.es.selector = 0x2B;
    cpu.cs.selector = 0x10;
    cpu.ss.selector = 0x18;
    cpu.ds.selector = 0x23;
    cpu.fs.selector = 0x53;
    cpu.gs.selector = 0x33;
    cpu.tr.selector = 0x40;
    assert_eq!(write_host_state(&mut state, &cpu, 0x1111, 0x2220), Ok(()));
    let fields = [0x0C00, 0x0C02, 0x0C04, 0x0C06, 0x0C08, 0x0C0A, 0x0C0C];
    let selectors = [0x2B, 0x10, 0x18, 0x23, 0x53, 0x33, 0x40];
    for (field, selector) in fields.iter().zip(selectors) {
        assert_eq!(sim::vmcs_field(&state, *field), selector);
    }
    assert_eq!(sim::vmcs_field(&state, 0x6C16), 0x1111);
    assert_eq!(sim::vmcs_field(&state, 0x6C14), 0x2220);
}
