//! PCI configuration-space addressing and the per-function register file.
//!
//! A configuration access is addressed by (bus, device, function, register).
//! The encoded address word and the bounds on each coordinate follow the
//! legacy 0xCF8/0xCFC mechanism; the actual port I/O is the caller's job,
//! the library only computes and checks values.

use vstd::prelude::*;
use crate::bar;
use crate::extended_capability::{locate_msi_x, spec_locate_msi_x};
use crate::msi_x;

verus! {

/// Errors a configuration-space or controller operation can report.
#[derive(Debug, Clone, Copy, PartialEq, Eq, Structural)]
pub enum Error {
    /// Register 0 of the function read as all-ones: no device present.
    DeviceAbsent,
    /// The function is present but its class code is not the requested one.
    WrongDeviceClass,
    /// A bounded poll ran out of attempts before the hardware condition held.
    HardwareNotResponding,
    /// The capability list never reached a zero next-pointer.
    MalformedCapabilityChain,
    /// No MSI-X capability was found on a controller that needs one.
    MsiXCapabilityMissing,
}

/// A PCI bus number; valid values are `0..256`.
#[derive(Debug, Clone, Copy)]
pub struct Bus(u32);

impl View for Bus {
    type V = u32;

    closed spec fn view(&self) -> u32 {
        self.0
    }
}

impl Bus {
    pub open spec fn limit() -> u32 {
        256
    }

    /// Construction succeeds exactly for bus numbers below 256.
    pub fn new(bus: u32) -> (r: Option<Self>)
        ensures
            r is Some <==> bus < Self::limit(),
            r is Some ==> r->0@ == bus,
    {
        if bus < 256 {
            Some(Self(bus))
        } else {
            None
        }
    }

    pub fn as_u32(self) -> (r: u32)
        ensures
            r == self@,
    {
        self.0
    }
}

/// A PCI device number; valid values are `0..32`.
#[derive(Debug, Clone, Copy)]
pub struct Device(u32);

impl View for Device {
    type V = u32;

    closed spec fn view(&self) -> u32 {
        self.0
    }
}

impl Device {
    pub open spec fn limit() -> u32 {
        32
    }

    /// Construction succeeds exactly for device numbers below 32.
    pub fn new(device: u32) -> (r: Option<Self>)
        ensures
            r is Some <==> device < Self::limit(),
            r is Some ==> r->0@ == device,
    {
        if device < 32 {
            Some(Self(device))
        } else {
            None
        }
    }

    pub fn as_u32(self) -> (r: u32)
        ensures
            r == self@,
    {
        self.0
    }
}

/// A PCI function number. Enumeration only ever probes function 0.
#[derive(Debug, Clone, Copy)]
pub struct Function(u32);

impl View for Function {
    type V = u32;

    closed spec fn view(&self) -> u32 {
        self.0
    }
}

impl Function {
    pub fn zero() -> (r: Self)
        ensures
            r@ == 0,
    {
        Self(0)
    }

    pub fn as_u32(self) -> (r: u32)
        ensures
            r == self@,
    {
        self.0
    }
}

/// An index into the 64 dwords of one function's configuration space.
#[derive(Debug, Clone, Copy)]
pub struct RegisterIndex(usize);

impl View for RegisterIndex {
    type V = usize;

    closed spec fn view(&self) -> usize {
        self.0
    }
}

impl RegisterIndex {
    pub open spec fn limit() -> usize {
        64
    }

    /// Construction succeeds exactly for indices below 64.
    pub fn new(offset: usize) -> (r: Option<Self>)
        ensures
            r is Some <==> offset < Self::limit(),
            r is Some ==> r->0@ == offset,
    {
        if offset < 64 {
            Some(Self(offset))
        } else {
            None
        }
    }

    pub fn zero() -> (r: Self)
        ensures
            r@ == 0,
    {
        Self(0)
    }

    pub fn as_usize(self) -> (r: usize)
        ensures
            r == self@,
    {
        self.0
    }

    pub fn is_null(self) -> (r: bool)
        ensures
            r <==> self@ == 0,
    {
        self.0 == 0
    }
}

/// The encoded address word for one configuration-space transaction:
/// valid bit 31, bus in bits 23:16, device in 15:11, function in 10:8,
/// register in 7:2.
pub open spec fn spec_config_address(bus: u32, device: u32, function: u32, register: u32) -> u32 {
    0x8000_0000u32 | (bus << 16u32) | (device << 11u32) | (function << 8u32) | (register << 2u32)
}

/// The coordinates of one configuration-space transaction.
#[derive(Debug, Clone, Copy)]
pub struct ConfigAddress {
    bus: Bus,
    device: Device,
    function: Function,
    register: RegisterIndex,
}

impl View for ConfigAddress {
    /// Bus, device, function and register coordinates, in that order.
    type V = (u32, u32, u32, usize);

    closed spec fn view(&self) -> (u32, u32, u32, usize) {
        (self.bus@, self.device@, self.function@, self.register@)
    }
}

impl ConfigAddress {
    pub fn new(bus: Bus, device: Device, function: Function, register: RegisterIndex) -> (r: Self)
        ensures
            r@ == (bus@, device@, function@, register@),
    {
        Self { bus, device, function, register }
    }

    /// The word to write to the address port before touching the data port.
    pub fn as_u32(&self) -> (r: u32)
        requires
            self@.3 < RegisterIndex::limit(),
        ensures
            r == spec_config_address(self@.0, self@.1, self@.2, self@.3 as u32),
    {
        let bus = self.bus.as_u32();
        let device = self.device.as_u32();
        let function = self.function.as_u32();
        let register = self.register.as_usize() as u32;

        0x8000_0000u32 | (bus << 16u32) | (device << 11u32) | (function << 8u32)
            | (register << 2u32)
    }
}

/// Number of dwords in one function's configuration space.
pub open spec fn spec_space_len() -> int {
    64
}

/// All-ones, the value register 0 reads as when no device answers.
pub open spec fn spec_absent_id() -> u32 {
    0xffff_ffffu32
}

/// A snapshot of one function's configuration space: its coordinates and
/// the 64 dwords read from it. Constructed only when the vendor/device
/// dword shows a device present.
#[derive(Debug)]
pub struct Registers {
    bus: Bus,
    device: Device,
    dwords: Vec<u32>,
}

impl View for Registers {
    type V = Seq<u32>;

    closed spec fn view(&self) -> Seq<u32> {
        self.dwords@
    }
}

impl Registers {
    pub open spec fn wf(&self) -> bool {
        self@.len() == spec_space_len()
    }

    pub closed spec fn spec_bus(&self) -> u32 {
        self.bus@
    }

    pub closed spec fn spec_device(&self) -> u32 {
        self.device@
    }

    /// The probe: a function is present exactly when its vendor/device
    /// dword is not all-ones.
    pub fn new(bus: Bus, device: Device, dwords: Vec<u32>) -> (r: Result<Self, Error>)
        requires
            dwords@.len() == spec_space_len(),
        ensures
            r is Ok <==> dwords@[0] != spec_absent_id(),
            r is Err ==> r->Err_0 == Error::DeviceAbsent,
            r is Ok ==> r->Ok_0@ == dwords@ && r->Ok_0.wf() && r->Ok_0.spec_bus() == bus@
                && r->Ok_0.spec_device() == device@,
    {
        if dwords[0] != 0xffff_ffffu32 {
            Ok(Self { bus, device, dwords })
        } else {
            Err(Error::DeviceAbsent)
        }
    }

    pub fn bus(&self) -> (r: u32)
        ensures
            r == self.spec_bus(),
    {
        self.bus.as_u32()
    }

    pub fn device(&self) -> (r: u32)
        ensures
            r == self.spec_device(),
    {
        self.device.as_u32()
    }

    /// The dword last read from (or written to) the given register.
    pub fn get(&self, index: RegisterIndex) -> (r: u32)
        requires
            self.wf(),
            index@ < RegisterIndex::limit(),
        ensures
            r == self@[index@ as int],
    {
        self.dwords[index.as_usize()]
    }

    /// Records a dword written to the given register, so later reads of the
    /// snapshot see it.
    pub fn set(&mut self, index: RegisterIndex, value: u32)
        requires
            old(self).wf(),
            index@ < RegisterIndex::limit(),
        ensures
            final(self).wf(),
            final(self)@ == old(self)@.update(index@ as int, value),
            final(self).spec_bus() == old(self).spec_bus(),
            final(self).spec_device() == old(self).spec_device(),
    {
        let i = index.as_usize();
        self.dwords.set(i, value);
    }
}

/// The class code packed into bits 31:8 of dword 2
/// (base class, sub-class, programming interface).
pub open spec fn spec_class_code(regs: Seq<u32>) -> u32 {
    regs[2] >> 8u32
}

/// Whether the status register (bits 31:16 of dword 1) advertises a
/// capability list; status bit 4 is dword bit 20.
pub open spec fn spec_has_capability_ptr(regs: Seq<u32>) -> bool {
    regs[1] & 0x0010_0000u32 != 0
}

/// The header type byte, bits 23:16 of dword 3, multifunction bit masked off.
pub open spec fn spec_header_type(regs: Seq<u32>) -> u32 {
    (regs[3] >> 16u32) & 0x7fu32
}

/// The class code of an xHCI USB3 host controller.
pub open spec fn spec_xhci_class() -> u32 {
    0x0c0330u32
}

/// The class code of an AHCI SATA controller.
pub open spec fn spec_ahci_class() -> u32 {
    0x010601u32
}

/// The common part of the configuration header, parsed fresh from a
/// register snapshot and never cached across writes.
#[derive(Debug, Clone, Copy)]
pub struct Common {
    status_command: u32,
    class: u32,
    header: u32,
}

impl Common {
    pub fn new(raw: &Registers) -> (r: Self)
        requires
            raw.wf(),
        ensures
            r.parsed_from(raw@),
    {
        let one = RegisterIndex::new(1).unwrap();
        let two = RegisterIndex::new(2).unwrap();
        let three = RegisterIndex::new(3).unwrap();
        Self { status_command: raw.get(one), class: raw.get(two), header: raw.get(three) }
    }

    pub closed spec fn parsed_from(&self, regs: Seq<u32>) -> bool {
        &&& self.status_command == regs[1]
        &&& self.class == regs[2]
        &&& self.header == regs[3]
    }

    pub fn has_capability_ptr(&self) -> (r: bool)
        ensures
            forall|regs: Seq<u32>|
                self.parsed_from(regs) ==> (r <==> spec_has_capability_ptr(regs)),
    {
        self.status_command & 0x0010_0000u32 != 0
    }

    pub fn is_xhci(&self) -> (r: bool)
        ensures
            forall|regs: Seq<u32>|
                self.parsed_from(regs) ==> (r <==> spec_class_code(regs) == spec_xhci_class()),
    {
        self.class >> 8u32 == 0x0c0330u32
    }

    pub fn is_ahci(&self) -> (r: bool)
        ensures
            forall|regs: Seq<u32>|
                self.parsed_from(regs) ==> (r <==> spec_class_code(regs) == spec_ahci_class()),
    {
        self.class >> 8u32 == 0x010601u32
    }

    pub fn header_type(&self) -> (r: u32)
        ensures
            forall|regs: Seq<u32>| self.parsed_from(regs) ==> r == spec_header_type(regs),
    {
        (self.header >> 16u32) & 0x7fu32
    }
}

/// The register index the capability walk starts at: the capability-pointer
/// byte at register 0x0d, masked to dword alignment, in dwords.
pub open spec fn spec_capability_start(regs: Seq<u32>) -> usize {
    (((regs[13] & 0xffu32) & 0xfcu32) >> 2u32) as usize
}

/// The capability-pointer register of a function that advertises one.
#[derive(Debug, Clone, Copy)]
pub struct CapabilityPointer {
    start: RegisterIndex,
}

impl View for CapabilityPointer {
    type V = usize;

    closed spec fn view(&self) -> usize {
        self.start@
    }
}

impl CapabilityPointer {
    /// Present exactly when the status register advertises a capability
    /// list; the held index is the masked pointer in dwords.
    pub fn new(registers: &Registers, common: &Common) -> (r: Option<Self>)
        requires
            registers.wf(),
            common.parsed_from(registers@),
        ensures
            r is Some <==> spec_has_capability_ptr(registers@),
            r is Some ==> r->0@ == spec_capability_start(registers@) && r->0@
                < RegisterIndex::limit(),
    {
        if common.has_capability_ptr() {
            let thirteen = RegisterIndex::new(13).unwrap();
            let byte = registers.get(thirteen) & 0xffu32;
            assert(((byte & 0xfcu32) >> 2u32) < 64u32) by (bit_vector);
            let index = ((byte & 0xfcu32) >> 2u32) as usize;
            Some(Self { start: RegisterIndex::new(index).unwrap() })
        } else {
            None
        }
    }

    pub fn register_index(&self) -> (r: RegisterIndex)
        ensures
            r@ == self@,
    {
        self.start
    }
}

/// One discovered PCI function: a validated snapshot of its configuration
/// space.
#[derive(Debug)]
pub struct Space {
    registers: Registers,
}

impl View for Space {
    type V = Seq<u32>;

    closed spec fn view(&self) -> Seq<u32> {
        self.registers@
    }
}

impl Space {
    pub open spec fn wf(&self) -> bool {
        self@.len() == spec_space_len()
    }

    /// The bus this function was probed at.
    pub closed spec fn spec_bus(&self) -> u32 {
        self.registers.spec_bus()
    }

    /// The device this function was probed at.
    pub closed spec fn spec_device(&self) -> u32 {
        self.registers.spec_device()
    }

    pub fn bus(&self) -> (r: u32)
        ensures
            r == self.spec_bus(),
    {
        self.registers.bus()
    }

    pub fn device(&self) -> (r: u32)
        ensures
            r == self.spec_device(),
    {
        self.registers.device()
    }

    /// Probe result for (bus, device): `None` exactly when register 0 read
    /// as all-ones; a `Some` addresses exactly the probed coordinates.
    pub fn new(bus: Bus, device: Device, dwords: Vec<u32>) -> (r: Option<Self>)
        requires
            dwords@.len() == spec_space_len(),
        ensures
            r is Some <==> dwords@[0] != spec_absent_id(),
            r is Some ==> r->0@ == dwords@ && r->0.wf() && r->0.spec_bus() == bus@
                && r->0.spec_device() == device@,
    {
        match Registers::new(bus, device, dwords) {
            Ok(registers) => Some(Self { registers }),
            Err(_) => None,
        }
    }

    pub fn is_xhci(&self) -> (r: bool)
        requires
            self.wf(),
        ensures
            r <==> spec_class_code(self@) == spec_xhci_class(),
    {
        self.common().is_xhci()
    }

    pub fn is_pci(&self) -> (r: bool)
        requires
            self.wf(),
        ensures
            r <==> spec_class_code(self@) == spec_ahci_class(),
    {
        self.common().is_ahci()
    }

    pub fn common(&self) -> (r: Common)
        requires
            self.wf(),
        ensures
            r.parsed_from(self@),
    {
        Common::new(&self.registers)
    }

    pub fn registers(&self) -> (r: &Registers)
        ensures
            r@ == self@,
            r.wf() == self.wf(),
            r.spec_bus() == self.spec_bus(),
            r.spec_device() == self.spec_device(),
    {
        &self.registers
    }

    /// The decoded base address of the BAR in the given slot.
    pub fn base_address(&self, index: bar::Index) -> (r: Option<u64>)
        requires
            self.wf(),
            index@ < bar::spec_bar_count(),
        ensures
            r == match bar::spec_bar(self@, index@) {
                Some(b) => Some(b.spec_base()),
                None => Option::<u64>::None,
            },
    {
        match bar::decode_bar(&self.registers, index) {
            Some(b) => Some(b.base()),
            None => None,
        }
    }

    /// Finds the MSI-X capability of an xHCI function, computes the vector
    /// table's address and the entry-0 image for the given interrupt, and
    /// enables MSI-X in the capability's message control, recording the
    /// write in the snapshot. Fails exactly when the function is not xHCI,
    /// the capability cannot be located, or the table address cannot be
    /// resolved.
    pub fn init_msi_for_xhci(&mut self, local_apic_id: u8) -> (r: Result<MsiXProgramming, Error>)
        requires
            old(self).wf(),
        ensures
            final(self).wf(),
            final(self).spec_bus() == old(self).spec_bus(),
            final(self).spec_device() == old(self).spec_device(),
            spec_class_code(old(self)@) != spec_xhci_class() ==> r == Result::<
                MsiXProgramming,
                Error,
            >::Err(Error::WrongDeviceClass) && final(self)@ == old(self)@,
            spec_class_code(old(self)@) == spec_xhci_class() ==> match spec_locate_msi_x(
                old(self)@,
            ) {
                Err(e) => r == Result::<MsiXProgramming, Error>::Err(e) && final(self)@ == old(
                    self,
                )@,
                Ok(off) => match spec_table_address(old(self)@, off) {
                    None => r == Result::<MsiXProgramming, Error>::Err(
                        Error::MsiXCapabilityMissing,
                    ) && final(self)@ == old(self)@,
                    Some(addr) => {
                        &&& r matches Ok(p)
                        &&& r->Ok_0.table_address == addr
                        &&& r->Ok_0.vector0 == spec_msi_x_vector0(local_apic_id, 0x40u8)
                        &&& r->Ok_0.control_register == off
                        &&& r->Ok_0.control_value == spec_enabled_control(old(self)@[off as int])
                        &&& final(self)@ == old(self)@.update(
                            off as int,
                            spec_enabled_control(old(self)@[off as int]),
                        )
                    },
                },
            },
    {
        if !self.is_xhci() {
            return Err(Error::WrongDeviceClass);
        }
        let mut capability = match locate_msi_x(&self.registers) {
            Err(e) => {
                return Err(e);
            },
            Ok(cs) => cs,
        };
        let bir = capability.bir();
        if bir >= 6u32 {
            return Err(Error::MsiXCapabilityMissing);
        }
        let index = bar::Index::new(bir as usize).unwrap();
        let decoded = match bar::decode_bar(&self.registers, index) {
            None => {
                return Err(Error::MsiXCapabilityMissing);
            },
            Some(b) => b,
        };
        let base = decoded.base();
        let table_offset = capability.table_offset();
        if base > u64::MAX - (table_offset as u64) {
            return Err(Error::MsiXCapabilityMissing);
        }
        let table_address = capability.table_addr(base);

        let idw = local_apic_id as u32;
        let mut vector0 = msi_x::VectorTableEntry::new();
        vector0.set_destination_id(local_apic_id);
        vector0.set_redirection_hint(true);
        vector0.set_level_trigger();
        vector0.set_vector(0x40u8);
        vector0.set_mask(false);
        proof {
            assert(((0u32 & !0x000f_f000u32) | (idw << 12u32)) | 8u32 == (idw << 12u32) | 8u32)
                by (bit_vector);
            assert(((0u32 | 0xc000u32) & !0xffu32) | 0x40u32 == 0xc040u32) by (bit_vector);
            assert(1u32 & !1u32 == 0u32) by (bit_vector);
            assert(0xc000u32 | (0x40u8 as u32) == 0xc040u32) by (bit_vector);
        }

        let off = capability.offset();
        let dword0 = self.registers.get(off);
        capability.enable_interrupt();
        let control_value = capability.merged_control(dword0);
        self.registers.set(off, control_value);
        Ok(
            MsiXProgramming {
                table_address,
                vector0,
                control_register: off.as_usize(),
                control_value,
            },
        )
    }
}

/// The byte address of the MSI-X vector table indicated by the capability
/// at `off`: the base of the BAR the BIR selects, plus the table offset.
/// `None` when the BIR does not select a decodable BAR or the sum would
/// not fit an address.
pub open spec fn spec_table_address(regs: Seq<u32>, off: usize) -> Option<u64> {
    let table = regs[off + 1];
    let bir = msi_x::spec_bir(table);
    if bir >= 6 {
        None
    } else {
        match bar::spec_bar(regs, bir as usize) {
            None => None,
            Some(b) => if b.spec_base() + msi_x::spec_table_offset(table) <= u64::MAX {
                Some((b.spec_base() + msi_x::spec_table_offset(table)) as u64)
            } else {
                None
            },
        }
    }
}

/// The entry-0 image the controller programs: destination APIC id in
/// bits 19:12 and the redirection hint set in the address, level-triggered
/// delivery and the vector in the data, the per-entry mask cleared.
pub open spec fn spec_msi_x_vector0(apic_id: u8, vector: u8) -> msi_x::VectorTableEntry {
    msi_x::VectorTableEntry {
        message_address_low: ((apic_id as u32) << 12u32) | 8u32,
        message_address_high: 0,
        message_data: 0xc000u32 | (vector as u32),
        vector_control: 0,
    }
}

/// The capability's first dword with MSI-X enable set and the function
/// mask cleared in its message-control half.
pub open spec fn spec_enabled_control(dword0: u32) -> u32 {
    (dword0 & 0xffffu32) | ((((dword0 >> 16u32) | 0x8000u32) & !0x4000u32) << 16u32)
}

/// What programming the MSI-X capability asks of the caller: the vector
/// table address and entry image to store there, and the configuration
/// dword to write back.
#[derive(Debug, Clone, Copy, PartialEq, Eq, Structural)]
pub struct MsiXProgramming {
    pub table_address: u64,
    pub vector0: msi_x::VectorTableEntry,
    pub control_register: usize,
    pub control_value: u32,
}

} // verus!
