use xhci_core::config::{Bus, ConfigAddress, Device, Error, Function, Registers, RegisterIndex, Space};

fn blank_space() -> Vec<u32> {
    let mut dwords = vec![0u32; 64];
    dwords[0] = 0x1234_8086;
    dwords
}

#[test]
fn probe_reports_absent_iff_register_zero_is_all_ones() {
    for register_zero in [0u32, 1, 0x1234_8086, 0xffff_fffe, 0xffff_ffff] {
        let mut dwords = vec![0u32; 64];
        dwords[0] = register_zero;
        let bus = Bus::new(0).unwrap();
        let device = Device::new(0).unwrap();
        let space = Space::new(bus, device, dwords);
        assert_eq!(space.is_none(), register_zero == 0xffff_ffff);
    }
}

#[test]
fn probe_error_is_device_absent() {
    let bus = Bus::new(3).unwrap();
    let device = Device::new(7).unwrap();
    let registers = Registers::new(bus, device, vec![0xffff_ffffu32; 64]);
    assert!(matches!(registers, Err(Error::DeviceAbsent)));
}

#[test]
fn bus_construction_fails_exactly_at_256() {
    assert!(Bus::new(0).is_some());
    assert!(Bus::new(255).is_some());
    assert!(Bus::new(256).is_none());
    assert!(Bus::new(1000).is_none());
    assert_eq!(Bus::new(255).unwrap().as_u32(), 255);
}

#[test]
fn device_construction_fails_exactly_at_32() {
    assert!(Device::new(0).is_some());
    assert!(Device::new(31).is_some());
    assert!(Device::new(32).is_none());
    assert!(Device::new(100).is_none());
    assert_eq!(Device::new(31).unwrap().as_u32(), 31);
}

#[test]
fn register_index_construction_fails_exactly_at_64() {
    assert!(RegisterIndex::new(0).is_some());
    assert!(RegisterIndex::new(63).is_some());
    assert!(RegisterIndex::new(64).is_none());
    assert!(RegisterIndex::new(1000).is_none());
    assert_eq!(RegisterIndex::new(63).unwrap().as_usize(), 63);
    assert!(RegisterIndex::zero().is_null());
    assert!(!RegisterIndex::new(5).unwrap().is_null());
}

#[test]
fn config_address_encodes_the_documented_fields() {
    let address = ConfigAddress::new(
        Bus::new(1).unwrap(),
        Device::new(2).unwrap(),
        Function::zero(),
        RegisterIndex::new(3).unwrap(),
    );
    assert_eq!(address.as_u32(), 0x8000_0000 | (1 << 16) | (2 << 11) | (3 << 2));
    assert_eq!(address.as_u32(), 0x8001_100c);

    let all_max = ConfigAddress::new(
        Bus::new(255).unwrap(),
        Device::new(31).unwrap(),
        Function::zero(),
        RegisterIndex::new(63).unwrap(),
    );
    assert_eq!(all_max.as_u32(), 0x8000_0000 | (255 << 16) | (31 << 11) | (63 << 2));
}

#[test]
fn a_probed_space_addresses_exactly_the_probed_coordinates() {
    let space = Space::new(Bus::new(7).unwrap(), Device::new(19).unwrap(), blank_space()).unwrap();
    assert_eq!(space.bus(), 7);
    assert_eq!(space.device(), 19);
    assert_eq!(space.registers().bus(), 7);
    assert_eq!(space.registers().device(), 19);
}

#[test]
fn registers_get_and_set_work_on_the_snapshot() {
    let mut dwords = blank_space();
    dwords[5] = 0xdead_beef;
    let bus = Bus::new(0).unwrap();
    let device = Device::new(0).unwrap();
    let mut registers = Registers::new(bus, device, dwords).unwrap();
    let five = RegisterIndex::new(5).unwrap();
    assert_eq!(registers.get(five), 0xdead_beef);
    registers.set(five, 0x1111_2222);
    assert_eq!(registers.get(five), 0x1111_2222);
}

#[test]
fn class_code_checks_match_the_wire_format() {
    let mut dwords = blank_space();
    dwords[2] = 0x0c03_3000;
    let space = Space::new(Bus::new(0).unwrap(), Device::new(0).unwrap(), dwords).unwrap();
    assert!(space.is_xhci());
    assert!(!space.is_pci());

    let mut dwords = blank_space();
    dwords[2] = 0x0106_0100;
    let space = Space::new(Bus::new(0).unwrap(), Device::new(0).unwrap(), dwords).unwrap();
    assert!(!space.is_xhci());
    assert!(space.is_pci());
}

#[test]
fn common_header_view_decodes_status_and_header_type() {
    let mut dwords = blank_space();
    dwords[1] = 0x0010_0000;
    dwords[3] = 0x0081_0000;
    let space = Space::new(Bus::new(0).unwrap(), Device::new(0).unwrap(), dwords).unwrap();
    let common = space.common();
    assert!(common.has_capability_ptr());
    assert_eq!(common.header_type(), 1);

    let dwords = blank_space();
    let space = Space::new(Bus::new(0).unwrap(), Device::new(0).unwrap(), dwords).unwrap();
    assert!(!space.common().has_capability_ptr());
    assert_eq!(space.common().header_type(), 0);
}
