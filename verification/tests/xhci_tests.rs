use xhci_core::config::{Bus, Device, Error, Space};
use xhci_core::registers::{HCCapabilityRegisters, HCOperationalRegisters, UsbLegacySupportCapability};
use xhci_core::xhci::{iter_devices, DiscoveredFunction, MemoryRegions, Xhci, MAX_DEVICE_SLOT, NUM_OF_TRBS_IN_RING};

fn xhci_config() -> Vec<u32> {
    let mut dwords = vec![0u32; 64];
    dwords[0] = 0x1234_8086; // vendor/device: present
    dwords[1] = 0x0010_0000; // status: capability list
    dwords[2] = 0x0c03_3000; // class code 0x0C0330
    dwords[3] = 0x0000_0000; // header type 0: non-bridge
    dwords[4] = 0x8000_0004; // BAR 0 low: 64-bit memory at 0x8000_0000
    dwords[5] = 0x0000_0000; // BAR 0 high
    dwords[13] = 0x40; // capability pointer
    dwords[16] = 0x11; // MSI-X capability, next 0
    dwords[17] = 0x0000_1000; // BIR 0, table offset 0x1000
    dwords
}

fn ahci_config() -> Vec<u32> {
    let mut dwords = xhci_config();
    dwords[2] = 0x0106_0100; // class code 0x010601
    dwords
}

fn space_of(dwords: Vec<u32>) -> Space {
    Space::new(Bus::new(0).unwrap(), Device::new(0).unwrap(), dwords).unwrap()
}

fn regions() -> MemoryRegions {
    MemoryRegions { dcbaa: 0x10_0000, command_ring: 0x10_1000, event_ring: 0x10_2000, segment_table: 0x10_3000 }
}

fn capability_registers() -> HCCapabilityRegisters {
    // cap length 0x20, 32 device slots, 4 ports, runtime offset 0x2000.
    HCCapabilityRegisters::new(0x20, 0x0400_0020, 0x2000)
}

#[test]
fn construction_accepts_xhci_and_completes_bring_up() {
    let space = space_of(xhci_config());
    let mut controller =
        Xhci::new(space, 0, capability_registers(), regions()).unwrap();

    let handoff = vec![
        0x0101_0000, // BIOS still owns
        0x0100_0000, // OS owns, BIOS does not
    ];
    let ready = vec![
        0x0000_0800, // controller not ready
        0x0000_0001, // ready (and halted)
    ];
    let run = vec![
        0x0000_0001, // still halted
        0x0000_0000, // running
    ];
    controller.init(0x2a, &handoff, &ready, &run).unwrap();

    // The MSI-X table resolves to BAR0 base + 0x1000.
    let programming = controller.msi_x_programming().unwrap();
    assert_eq!(programming.table_address, 0x8000_1000);
    assert_eq!(programming.vector0.message_address_low, (0x2a << 12) | 8);
    assert_eq!(programming.vector0.message_data, 0xc040);
    assert_eq!(programming.vector0.vector_control, 0);

    // The operational image holds what the nine steps programmed.
    let op = controller.operational_registers();
    assert_eq!(op.usb_cmd, 4 | 1); // Interrupt-Enable and Run/Stop
    assert_eq!(op.dcbaap, 0x10_0000);
    assert_eq!(op.crcr, 0x10_1000);
    assert_eq!(op.config, 0x20); // 32 device slots

    let runtime = controller.runtime_registers();
    assert_eq!(runtime.erst_sz, 1);
    assert_eq!(runtime.erst_ba, 0x10_3000);
    assert_eq!(runtime.erd_p, 0x10_2000);

    let entry = controller.segment_table_entry();
    assert_eq!(entry.base_address, 0x10_2000);
    assert_eq!(entry.segment_size, NUM_OF_TRBS_IN_RING as u64);

    // The OS-owns bit was requested.
    assert_eq!(controller.legacy_support().usb_leg_sup, 0x0100_0000);
}

#[test]
fn a_fresh_controller_starts_with_zeroed_rings_and_images() {
    let space = space_of(xhci_config());
    let controller = Xhci::new(space, 0, capability_registers(), regions()).unwrap();
    let ring = controller.command_ring();
    assert_eq!(ring.len(), NUM_OF_TRBS_IN_RING);
    for i in 0..ring.len() {
        assert_eq!(ring.get(i).value(), 0);
    }
    assert_eq!(controller.event_ring().len(), NUM_OF_TRBS_IN_RING);
    assert_eq!(controller.operational_registers().usb_cmd, 0);
    assert_eq!(controller.runtime_registers().erst_ba, 0);
    assert!(controller.msi_x_programming().is_none());
}

#[test]
fn register_layout_follows_caplength_rtsoff_and_the_fixed_offsets() {
    let caps = capability_registers(); // CAPLENGTH 0x20, RTSOFF 0x2000
    let mmio_base = 0x8000_0000u64;
    let op_base = caps.operational_base(mmio_base);
    assert_eq!(op_base, 0x8000_0020);
    // RTSOFF's low 5 bits are reserved and masked off.
    let dirty = HCCapabilityRegisters::new(0x20, 0x0400_0020, 0x201f);
    assert_eq!(dirty.runtime_base(mmio_base), 0x8000_2000);

    let op = HCOperationalRegisters::layout(op_base);
    assert_eq!(op.usb_cmd, op_base);
    assert_eq!(op.usb_sts, op_base + 0x04);
    assert_eq!(op.crcr, op_base + 0x18);
    assert_eq!(op.dcbaap, op_base + 0x30);
    assert_eq!(op.config, op_base + 0x38);
    assert_eq!(op.port_sc_base, op_base + 0x400);
    assert_eq!(xhci_core::registers::port_sc_addr(op_base, 3), op_base + 0x400 + 0x30);

    let rt = xhci_core::registers::RuntimeBaseRegisters::layout(caps.runtime_base(mmio_base));
    assert_eq!(rt.erst_sz, 0x8000_2028);
    assert_eq!(rt.erst_ba, 0x8000_2030);
    assert_eq!(rt.erd_p, 0x8000_2038);
}

#[test]
fn construction_rejects_ahci_with_wrong_device_class() {
    let space = space_of(ahci_config());
    let result = Xhci::new(space, 0, capability_registers(), regions());
    assert!(matches!(result, Err(Error::WrongDeviceClass)));
}

#[test]
fn bring_up_times_out_with_hardware_not_responding() {
    let space = space_of(xhci_config());
    let mut controller = Xhci::new(space, 0, capability_registers(), regions()).unwrap();
    // The BIOS never lets go.
    let handoff = vec![0x0101_0000; 5];
    let ready = vec![0];
    let run = vec![0];
    assert!(matches!(
        controller.init(0, &handoff, &ready, &run),
        Err(Error::HardwareNotResponding)
    ));
}

#[test]
fn bring_up_without_msi_x_fails_for_that_controller_only() {
    let mut dwords = xhci_config();
    dwords[16] = 0x05; // some other capability, no MSI-X
    let space = space_of(dwords);
    let mut controller = Xhci::new(space, 0, capability_registers(), regions()).unwrap();
    let handoff = vec![0x0100_0000];
    let ready = vec![0];
    let run = vec![0];
    assert!(matches!(
        controller.init(0, &handoff, &ready, &run),
        Err(Error::MsiXCapabilityMissing)
    ));
}

#[test]
fn iter_devices_keeps_only_xhci_functions() {
    let candidates = vec![
        DiscoveredFunction {
            space: space_of(ahci_config()),
            usb_leg_sup: 0,
            capability_registers: capability_registers(),
            regions: regions(),
        },
        DiscoveredFunction {
            space: space_of(xhci_config()),
            usb_leg_sup: 0,
            capability_registers: capability_registers(),
            regions: regions(),
        },
    ];
    let controllers = iter_devices(candidates);
    assert_eq!(controllers.len(), 1);
    assert_eq!(controllers[0].operational_registers().usb_cmd, 0);
}

#[test]
fn operational_register_images_follow_the_wire_format() {
    let mut op = HCOperationalRegisters::new();
    op.set_num_of_device_slots(0x1ff);
    assert_eq!(op.config, 0xff); // only bits 7:0
    op.set_command_ring_ptr(0x1234_5678_9abc_def7);
    assert_eq!(op.crcr, 0x1234_5678_9abc_dec0); // low 6 bits masked
    op.set_dcbaa_ptr(0x10_0000);
    assert_eq!(op.dcbaap, 0x10_0000);
    op.enable_interrupt();
    assert_eq!(op.usb_cmd, 4);

    // reset_hc does nothing when the controller is already halted.
    let mut op = HCOperationalRegisters::new();
    op.reset_hc(0x1);
    assert_eq!(op.usb_cmd, 0);
    op.reset_hc(0x0);
    assert_eq!(op.usb_cmd, 2);
}

#[test]
fn polls_report_the_first_matching_observation() {
    let op = HCOperationalRegisters::new();
    assert_eq!(op.wait_until_hc_is_ready(&vec![0x800, 0x800, 0, 0x800]), Ok(2));
    assert!(matches!(
        op.wait_until_hc_is_ready(&vec![0x800; 3]),
        Err(Error::HardwareNotResponding)
    ));
    // A zero-length observation window can never succeed.
    assert!(matches!(
        op.wait_until_hc_is_ready(&vec![]),
        Err(Error::HardwareNotResponding)
    ));
    assert_eq!(op.wait_until_hc_is_reset(&vec![2, 0]), Ok(1));

    let mut legacy = UsbLegacySupportCapability::new(0x0001_0000);
    legacy.request_hc_ownership(true);
    assert_eq!(legacy.usb_leg_sup, 0x0101_0000);
    assert_eq!(
        legacy.wait_until_os_owns(&vec![0x0101_0000, 0x0100_0000]),
        Ok(1)
    );
}

#[test]
fn dcbaa_has_255_zeroed_slots() {
    let dcbaa = xhci_core::xhci::DeviceContextBaseAddressArray::new(0x10_0000);
    assert_eq!(dcbaa.len(), MAX_DEVICE_SLOT);
    assert_eq!(dcbaa.len(), 255);
    assert_eq!(dcbaa.addr(), 0x10_0000);
}
