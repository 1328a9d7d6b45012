use xhci_core::bar::{decode_bar, Bar, Index};
use xhci_core::config::{Bus, Device, Error, Registers, RegisterIndex, Space};
use xhci_core::extended_capability::{locate_msi_x, ExtendedCapabilities};
use xhci_core::msi_x::CapabilitySpec;

fn space_with(dwords: Vec<u32>) -> Space {
    Space::new(Bus::new(0).unwrap(), Device::new(0).unwrap(), dwords).unwrap()
}

fn registers_with(dwords: Vec<u32>) -> Registers {
    Registers::new(Bus::new(0).unwrap(), Device::new(0).unwrap(), dwords).unwrap()
}

fn present_with_capabilities() -> Vec<u32> {
    let mut dwords = vec![0u32; 64];
    dwords[0] = 0x1234_8086;
    dwords[1] = 0x0010_0000; // status: capability list
    dwords[13] = 0x40; // capability pointer: byte 0x40, register 16
    dwords
}

#[test]
fn synthetic_chain_yields_two_entries_in_order_with_msi_x_payload() {
    let mut dwords = present_with_capabilities();
    // A at byte 0x40: id 0x05, next 0x50.
    dwords[16] = 0x05 | (0x50 << 8);
    // B at byte 0x50: id 0x11 (MSI-X), next 0.
    dwords[20] = 0x11;
    dwords[21] = 0x0000_2003; // table offset/BIR
    let registers = registers_with(dwords);

    let capabilities = ExtendedCapabilities::new(&registers).unwrap().unwrap();
    assert_eq!(capabilities.len(), 2);
    assert_eq!(capabilities.get(0).id(), 0x05);
    assert!(capabilities.get(0).capability_spec().is_none());
    assert_eq!(capabilities.get(1).id(), 0x11);
    assert!(capabilities.get(1).capability_spec().is_some());
}

#[test]
fn no_capability_pointer_means_no_capabilities() {
    let mut dwords = vec![0u32; 64];
    dwords[0] = 0x1234_8086;
    let registers = registers_with(dwords);
    assert!(ExtendedCapabilities::new(&registers).unwrap().is_none());
}

#[test]
fn a_cyclic_chain_is_reported_malformed() {
    let mut dwords = present_with_capabilities();
    // A at byte 0x40 points to B at 0x50, which points back to A.
    dwords[16] = 0x05 | (0x50 << 8);
    dwords[20] = 0x06 | (0x40 << 8);
    let registers = registers_with(dwords);
    assert!(matches!(
        ExtendedCapabilities::new(&registers),
        Err(Error::MalformedCapabilityChain)
    ));
}

#[test]
fn repeated_ids_are_kept_in_discovery_order() {
    let mut dwords = present_with_capabilities();
    dwords[16] = 0x01 | (0x50 << 8);
    dwords[20] = 0x01 | (0x60 << 8);
    dwords[24] = 0x01;
    let registers = registers_with(dwords);
    let capabilities = ExtendedCapabilities::new(&registers).unwrap().unwrap();
    assert_eq!(capabilities.len(), 3);
    for k in 0..3 {
        assert_eq!(capabilities.get(k).id(), 0x01);
    }
}

#[test]
fn msi_x_offset_dword_0x2003_has_bir_3_and_offset_0x2000() {
    let mut dwords = present_with_capabilities();
    dwords[16] = 0x11;
    dwords[17] = 0x0000_2003;
    let registers = registers_with(dwords);
    let capability = CapabilitySpec::new(&registers, RegisterIndex::new(16).unwrap()).unwrap();
    assert_eq!(capability.bir(), 3);
    assert_eq!(capability.table_offset(), 0x2000);
    assert_eq!(capability.table_addr(0x8000_0000), 0x8000_2000);
}

#[test]
fn msi_x_message_control_decodes_size_and_flags() {
    let mut dwords = present_with_capabilities();
    // message control 0xc00a: enable set, function mask set, size field 10.
    dwords[16] = 0x11 | (0xc00a << 16);
    let registers = registers_with(dwords.clone());
    let mut capability = CapabilitySpec::new(&registers, RegisterIndex::new(16).unwrap()).unwrap();
    assert_eq!(capability.table_size(), 11);
    capability.enable_interrupt();
    // enable stays set, function mask cleared.
    assert_eq!(capability.merged_control(dwords[16]), 0x11 | (0x800a << 16));
}

#[test]
fn locate_msi_x_reports_a_chain_without_it_as_missing() {
    let mut dwords = present_with_capabilities();
    dwords[16] = 0x05;
    let registers = registers_with(dwords);
    assert!(matches!(locate_msi_x(&registers), Err(Error::MsiXCapabilityMissing)));
}

#[test]
fn bar_decode_handles_the_three_kinds() {
    let mut dwords = vec![0u32; 64];
    dwords[0] = 0x1234_8086;
    dwords[4] = 0x8000_0004; // 64-bit memory BAR, low half
    dwords[5] = 0x0000_0001; // high half
    dwords[6] = 0xc000_0000; // 32-bit memory BAR
    dwords[7] = 0x0000_e001; // I/O BAR
    let registers = registers_with(dwords);

    let bar0 = decode_bar(&registers, Index::new(0).unwrap()).unwrap();
    assert_eq!(bar0, Bar::Memory64(0x1_8000_0000));
    assert_eq!(bar0.base(), 0x1_8000_0000);

    let bar2 = decode_bar(&registers, Index::new(2).unwrap()).unwrap();
    assert_eq!(bar2, Bar::Memory32(0xc000_0000));

    let bar3 = decode_bar(&registers, Index::new(3).unwrap()).unwrap();
    assert_eq!(bar3, Bar::Io(0xe000));

    assert!(Index::new(6).is_none());
}

#[test]
fn init_msi_for_xhci_rejects_a_non_xhci_function() {
    let mut dwords = present_with_capabilities();
    dwords[2] = 0x0106_0100; // AHCI
    dwords[16] = 0x11;
    let mut space = space_with(dwords);
    assert!(matches!(space.init_msi_for_xhci(0), Err(Error::WrongDeviceClass)));
}

#[test]
fn init_msi_for_xhci_programs_table_and_enables() {
    let mut dwords = present_with_capabilities();
    dwords[2] = 0x0c03_3000; // xHCI class
    dwords[4] = 0x8000_0004; // 64-bit memory BAR 0
    dwords[16] = 0x11; // MSI-X capability, next 0
    dwords[17] = 0x0000_1000; // BIR 0, offset 0x1000
    let mut space = space_with(dwords);

    let programming = space.init_msi_for_xhci(0x2a).unwrap();
    assert_eq!(programming.table_address, 0x8000_1000);
    assert_eq!(programming.vector0.message_address_low, (0x2a << 12) | 8);
    assert_eq!(programming.vector0.message_address_high, 0);
    assert_eq!(programming.vector0.message_data, 0xc040);
    assert_eq!(programming.vector0.vector_control, 0);
    assert_eq!(programming.control_register, 16);
    // MSI-X enable set, function mask clear, id/next untouched.
    assert_eq!(programming.control_value, 0x11 | (0x8000 << 16));
    // The write is recorded in the snapshot.
    assert_eq!(space.registers().get(RegisterIndex::new(16).unwrap()), 0x11 | (0x8000 << 16));
}
