use xhci_core::config::Error;
use xhci_core::mouse::{Device, MouseButtons};
use xhci_core::port::{Collection, Port};
use xhci_core::registers::{HCCapabilityRegisters, PortStatusAndControlRegister};

#[test]
fn portsc_bits_follow_the_wire_format() {
    let portsc = PortStatusAndControlRegister::new(0x0020_0213);
    assert!(portsc.current_connect_status());
    assert!(portsc.port_enabled_disabled());
    assert!(portsc.port_reset());
    assert!(portsc.port_power());
    assert!(portsc.port_reset_changed());
    assert!(!portsc.disconnected());

    let idle = PortStatusAndControlRegister::new(0x200);
    assert!(idle.disconnected());
    assert_eq!(idle.with_port_reset().0, 0x210);
}

#[test]
fn spawn_port_tasks_picks_exactly_the_connected_ports() {
    // 4 ports in HCSPARAMS1 bits 31:24.
    let caps = HCCapabilityRegisters::new(0x20, 0x0400_0020, 0x2000);
    let status = vec![0x201, 0x200, 0x1, 0x0];
    let collection = Collection::new(caps, status);
    assert_eq!(collection.num_of_ports(), 4);
    let ports = collection.spawn_port_tasks();
    assert_eq!(ports.len(), 2);
    assert_eq!(ports[0].index(), 0);
    assert_eq!(ports[0].port_sc(), 0x201);
    assert_eq!(ports[1].index(), 2);
    assert_eq!(ports[1].port_sc(), 0x1);
}

#[test]
fn reset_if_connected_drives_the_reset_protocol() {
    let mut port = Port::new(0, 0x201);
    assert!(port.connected());
    let observations = vec![0x211, 0x211, 0x0020_0201];
    port.reset_if_connected(&observations).unwrap();
    // The image carries the Port-Reset write.
    assert_eq!(port.port_sc(), 0x211);

    // A port that never reports Port-Reset-Changed times out.
    let mut stuck = Port::new(1, 0x201);
    assert!(matches!(
        stuck.reset_if_connected(&vec![0x211; 4]),
        Err(Error::HardwareNotResponding)
    ));

    // A disconnected port is left alone.
    let mut empty = Port::new(2, 0x200);
    empty.reset_if_connected(&vec![]).unwrap();
    assert_eq!(empty.port_sc(), 0x200);
}

#[test]
fn mouse_buttons_decode_bits_2_to_0() {
    let buttons = MouseButtons::purse_data(0x0b);
    assert!(buttons.left);
    assert!(buttons.right);
    assert!(!buttons.center);
    let none = MouseButtons::new();
    assert!(!none.left && !none.center && !none.right);
}

#[test]
fn mouse_state_machine_collects_a_packet() {
    let mut device = Device::new();
    assert!(!device.data_available());

    // Bytes before the 0xfa acknowledge are ignored.
    device.put_data(0x08);
    assert!(!device.data_available());
    device.put_data(0xfa);

    // A byte that does not match the sync pattern is dropped.
    device.put_data(0x40);
    assert!(!device.data_available());

    device.put_data(0x09); // first byte: left button, sync bit
    device.put_data(10); // x movement
    assert!(!device.data_available());
    device.put_data(5); // y movement
    assert!(device.data_available());

    // A full packet absorbs nothing more until parsed.
    device.put_data(0xff);
    assert!(device.data_available());

    device.purse_data();
    assert!(!device.data_available());
    let speed = device.get_speed();
    assert_eq!(speed.x, 10);
    assert_eq!(speed.y, -5);
    assert!(device.buttons().left);
    assert!(!device.buttons().right);
}

#[test]
fn mouse_movements_sign_extend_through_the_flag_bits() {
    let mut device = Device::new();
    device.put_data(0xfa);
    device.put_data(0x38); // sync bit, both sign flags
    device.put_data(0xf0); // x: -16
    device.put_data(0xff); // y: -1, negated to 1
    device.purse_data();
    let speed = device.get_speed();
    assert_eq!(speed.x, -16);
    assert_eq!(speed.y, 1);
}
