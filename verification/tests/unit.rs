use hlidskjalf::check_vmx_support_from_ecx;
use hlidskjalf::vmx::context::{GuestContext, GUEST_CONTEXT_GPR_COUNT};
use hlidskjalf::vmx::ept::{ept_large_page_entry, ept_table_entry, EptPointer, EptTable, EPT_LARGE_PAGE_SIZE};
use hlidskjalf::vmx::exit::{VM_EXIT_REASON_CPUID, VM_EXIT_REASON_EPT_VIOLATION};
use hlidskjalf::vmx::memory::{EptPdPages, HostStack, VmxRegion};
use hlidskjalf::vmx::msr::{adjust_vmx_control_values, vmx_revision_id};
use hlidskjalf::vmx::state::{flat_data_segment, segment_access_rights};
use hlidskjalf::vmx::vmcs::encoding;
use hlidskjalf::vmx::vmlaunch::VmxLaunchError;

#[test]
fn vmx_bit_set_when_ecx_has_bit_5() {
    assert!(check_vmx_support_from_ecx(1 << 5));
}

#[test]
fn vmx_bit_clear_when_ecx_is_zero() {
    assert!(!check_vmx_support_from_ecx(0));
}

#[test]
fn context_matches_assembly_push_count() {
    assert_eq!(
        core::mem::size_of::<GuestContext>(),
        GUEST_CONTEXT_GPR_COUNT * 8
    );
}

#[test]
fn test_eptp_creation() {
    let pml4_pa = 0x1000;
    let eptp = EptPointer::new(pml4_pa);
    assert_eq!(eptp.eptp, 0x101E);
}

#[test]
fn large_page_entry_marks_large_bit() {
    let entry = ept_large_page_entry(0x0020_0000);
    assert_eq!(entry & 0x87, 0x87);
}

#[test]
fn identity_map_covers_first_4gb() {
    let gb = 3;
    let slot = 10;
    let phys = (gb as u64 * 1024 * 1024 * 1024) + (slot as u64 * EPT_LARGE_PAGE_SIZE);
    assert_eq!(phys, 0xC140_0000);
    assert!(phys < 4 * 1024 * 1024 * 1024);
}

#[test]
fn exit_reason_constants_are_stable() {
    assert_eq!(VM_EXIT_REASON_CPUID, 10);
    assert_eq!(VM_EXIT_REASON_EPT_VIOLATION, 48);
}

#[test]
fn revision_id_uses_low_31_bits() {
    assert_eq!(vmx_revision_id(0x8000_0123), 0x123);
}

#[test]
fn hypervisor_static_allocation_is_lightweight() {
    let bytes = core::mem::size_of::<VmxRegion>() * 4
        + core::mem::size_of::<EptPdPages>()
        + core::mem::size_of::<HostStack>();
    assert!(bytes <= 40 * 1024);
}

#[test]
fn vmx_revision_id_masks_upper_bits() {
    let basic = 0xDA0400600_u64;
    assert_eq!(vmx_revision_id(basic), (basic & 0x7FFF_FFFF) as u32);
}

#[test]
fn adjust_vmx_control_applies_allowed_bits() {
    let cap = 0xFFFF_FFFF_0000_0022_u64;
    let result = adjust_vmx_control_values(0, cap);
    assert_eq!(result, 0x22);
}

#[test]
fn null_selector_access_rights_are_unusable() {
    assert_eq!(segment_access_rights(0), 1 << 16);
}

#[test]
fn flat_data_segment_has_full_limit() {
    let seg = flat_data_segment(0x2B);
    assert_eq!(seg.limit, 0xFFFF_FFFF);
    assert_eq!(seg.base, 0);
}

#[test]
fn encodings_are_unique_for_core_fields() {
    assert_ne!(encoding::GUEST_RIP, encoding::HOST_RIP);
    assert_ne!(encoding::GUEST_RSP, encoding::HOST_RSP);
    assert_ne!(encoding::VM_EXIT_REASON, encoding::VM_INSTRUCTION_ERROR);
}

#[test]
fn launch_error_carries_instruction_error_code() {
    let err = VmxLaunchError::VmlaunchFailed(7);
    assert_eq!(err, VmxLaunchError::VmlaunchFailed(7));
}

#[test]
fn table_entry_keeps_address_and_sets_rwx() {
    assert_eq!(ept_table_entry(0x1234_5678_9ABC), 0x1234_5678_9007);
    assert_eq!(ept_table_entry(0xFFFF_0000_0000_0FFF), 0x0000_0000_0000_0007);
}

#[test]
fn large_page_entry_exact_value() {
    assert_eq!(ept_large_page_entry(0xC140_0000), 0xC140_0087);
}

#[test]
fn eptp_drops_bits_outside_address_mask() {
    assert_eq!(EptPointer::new(0xFFFF_1234_5678_9FFF).eptp, 0x1234_5678_901E);
}

#[test]
fn empty_ept_table_is_all_zero() {
    let table = EptTable::new();
    assert!(table.entries.iter().all(|e| *e == 0));
}

#[test]
fn ldt_selector_access_rights_are_unusable() {
    assert_eq!(segment_access_rights(0x2C), 0x1_A000);
    assert_eq!(segment_access_rights(0x2B), 0xA000);
}

#[test]
fn adjust_vmx_control_masks_disallowed_bits() {
    let cap = 0x0000_00F0_0000_0001_u64;
    assert_eq!(adjust_vmx_control_values(0xFFFF_FFFF_FFFF_FFFF, cap), 0xF1);
    assert_eq!(adjust_vmx_control_values(0xF1, cap), 0xF1);
}

#[test]
fn status_codes_match_ntstatus_values() {
    assert_eq!(hlidskjalf::STATUS_SUCCESS, 0);
    assert_eq!(hlidskjalf::STATUS_NOT_SUPPORTED, 0xC000_00BB_u32 as i32);
    assert_eq!(hlidskjalf::STATUS_UNSUCCESSFUL, 0xC000_0001_u32 as i32);
}

#[test]
fn vmx_check_accepts_any_input_bytes() {
    let inputs: [&[u8]; 5] = [&[], &[0x20], &[0x20, 0, 0, 0], &[0xFF, 0xFF, 0xFF, 0xFF, 1], &[0xDF, 0xFF, 0xFF, 0xFF]];
    let expected = [false, false, true, true, false];
    for (data, want) in inputs.iter().zip(expected) {
        let ecx = if data.len() >= 4 {
            u32::from_le_bytes([data[0], data[1], data[2], data[3]])
        } else {
            0
        };
        assert_eq!(check_vmx_support_from_ecx(ecx), want);
    }
}
