//! The xHCI register blocks, modeled as plain values.
//!
//! Capability registers are read-only facts about the controller, handed
//! in once. Operational and runtime registers are kept as the image of
//! what software wrote; status registers belong to hardware and come in
//! as observed values. Every hardware wait is a bounded poll over a
//! sequence of such observations, reporting `HardwareNotResponding`
//! instead of spinning forever.

use vstd::prelude::*;
use crate::config::Error;

verus! {

/// USBSTS: HC-Halted is bit 0.
pub open spec fn spec_hc_halted(sts: u32) -> bool {
    sts & 1u32 != 0
}

/// USBSTS: Controller-Not-Ready is bit 11.
pub open spec fn spec_controller_not_ready(sts: u32) -> bool {
    sts & 0x800u32 != 0
}

/// USBCMD: Run/Stop is bit 0.
pub open spec fn spec_run_stop(cmd: u32) -> bool {
    cmd & 1u32 != 0
}

/// USBCMD: HC-Reset is bit 1.
pub open spec fn spec_hc_reset(cmd: u32) -> bool {
    cmd & 2u32 != 0
}

/// USBCMD: Interrupt-Enable is bit 2.
pub open spec fn spec_interrupt_enable(cmd: u32) -> bool {
    cmd & 4u32 != 0
}

/// USB Legacy Support: BIOS-owns is bit 16, OS-owns is bit 24.
pub open spec fn spec_bios_owns(legsup: u32) -> bool {
    legsup & 0x0001_0000u32 != 0
}

pub open spec fn spec_os_owns(legsup: u32) -> bool {
    legsup & 0x0100_0000u32 != 0
}

/// The handoff is complete once the OS owns the controller and the BIOS
/// no longer does.
pub open spec fn spec_handoff_done(legsup: u32) -> bool {
    spec_os_owns(legsup) && !spec_bios_owns(legsup)
}

/// The read-only capability registers of one controller: the length of
/// the capability block, HCSPARAMS1, and the runtime-register offset.
#[derive(Debug, Clone, Copy, PartialEq, Eq, Structural)]
pub struct HCCapabilityRegisters {
    pub cap_length: u8,
    pub hcs_params_1: u32,
    pub rts_off: u32,
}

impl HCCapabilityRegisters {
    pub fn new(cap_length: u8, hcs_params_1: u32, rts_off: u32) -> (r: Self)
        ensures
            r.cap_length == cap_length,
            r.hcs_params_1 == hcs_params_1,
            r.rts_off == rts_off,
    {
        Self { cap_length, hcs_params_1, rts_off }
    }

    /// Bytes from the MMIO base to the operational registers.
    pub fn len(&self) -> (r: usize)
        ensures
            r == self.cap_length as usize,
    {
        self.cap_length as usize
    }

    /// HCSPARAMS1 bits 7:0 — the number of device slots the controller
    /// supports.
    pub fn number_of_device_slots(&self) -> (r: u32)
        ensures
            r == self.hcs_params_1 & 0xffu32,
    {
        self.hcs_params_1 & 0xffu32
    }

    /// HCSPARAMS1 bits 31:24 — the number of ports.
    pub fn max_ports(&self) -> (r: u32)
        ensures
            r == self.hcs_params_1 >> 24u32,
    {
        self.hcs_params_1 >> 24u32
    }

    /// The operational register block begins CAPLENGTH bytes past the
    /// MMIO base.
    pub fn operational_base(&self, mmio_base: u64) -> (r: u64)
        requires
            mmio_base + self.cap_length <= u64::MAX,
        ensures
            r == mmio_base + self.cap_length,
    {
        mmio_base + (self.cap_length as u64)
    }

    /// The runtime register block begins at the 32-byte aligned RTSOFF
    /// past the MMIO base; the register's low 5 bits are reserved.
    pub fn runtime_base(&self, mmio_base: u64) -> (r: u64)
        requires
            mmio_base + (self.rts_off & !0x1fu32) <= u64::MAX,
        ensures
            r == mmio_base + (self.rts_off & !0x1fu32),
    {
        mmio_base + ((self.rts_off & !0x1fu32) as u64)
    }
}

/// Where each operational register lives: the addresses the images in
/// `HCOperationalRegisters` are written back to.
#[derive(Debug, Clone, Copy, PartialEq, Eq, Structural)]
pub struct OperationalLayout {
    pub usb_cmd: u64,
    pub usb_sts: u64,
    pub crcr: u64,
    pub dcbaap: u64,
    pub config: u64,
    pub port_sc_base: u64,
}

/// Where each interrupter-0 runtime register lives: the addresses the
/// images in `RuntimeBaseRegisters` are written back to.
#[derive(Debug, Clone, Copy, PartialEq, Eq, Structural)]
pub struct RuntimeLayout {
    pub erst_sz: u64,
    pub erst_ba: u64,
    pub erd_p: u64,
}

/// The PORTSC register of one port: the port register sets start 0x400
/// bytes past the operational base and are 0x10 bytes apart.
pub fn port_sc_addr(operational_base: u64, port: usize) -> (r: u64)
    requires
        operational_base + 0x400 + 0x10 * port <= u64::MAX,
    ensures
        r == operational_base + 0x400 + 0x10 * port,
{
    operational_base + 0x400u64 + 0x10u64 * (port as u64)
}

/// The image of the USB Legacy Support capability dword, through which
/// the BIOS hands the controller to the OS.
#[derive(Debug, Clone, Copy, PartialEq, Eq, Structural)]
pub struct UsbLegacySupportCapability {
    pub usb_leg_sup: u32,
}

impl UsbLegacySupportCapability {
    pub fn new(usb_leg_sup: u32) -> (r: Self)
        ensures
            r.usb_leg_sup == usb_leg_sup,
    {
        Self { usb_leg_sup }
    }

    /// Sets (or clears) the OS-owns bit in the image; the caller writes
    /// the image back to the capability.
    pub fn request_hc_ownership(&mut self, own: bool)
        ensures
            final(self).usb_leg_sup == if own {
                old(self).usb_leg_sup | 0x0100_0000u32
            } else {
                old(self).usb_leg_sup & !0x0100_0000u32
            },
    {
        if own {
            self.usb_leg_sup = self.usb_leg_sup | 0x0100_0000u32;
        } else {
            self.usb_leg_sup = self.usb_leg_sup & !0x0100_0000u32;
        }
    }

    pub fn bios_owns_hc(&self) -> (r: bool)
        ensures
            r == spec_bios_owns(self.usb_leg_sup),
    {
        self.usb_leg_sup & 0x0001_0000u32 != 0
    }

    pub fn os_owns_hc(&self) -> (r: bool)
        ensures
            r == spec_os_owns(self.usb_leg_sup),
    {
        self.usb_leg_sup & 0x0100_0000u32 != 0
    }

    /// Bounded poll over successive reads of the capability dword:
    /// `Ok(i)` exactly for the first read showing the handoff complete,
    /// `HardwareNotResponding` when no read does.
    pub fn wait_until_os_owns(&self, observations: &Vec<u32>) -> (r: Result<usize, Error>)
        ensures
            r matches Ok(i) ==> i < observations@.len() && spec_handoff_done(observations@[i as int])
                && forall|j: int| 0 <= j < i ==> !spec_handoff_done(observations@[j]),
            r is Err ==> r->Err_0 == Error::HardwareNotResponding && forall|j: int|
                0 <= j < observations@.len() ==> !spec_handoff_done(observations@[j]),
    {
        let n = observations.len();
        for i in 0..n
            invariant
                n == observations@.len(),
                forall|j: int| 0 <= j < i ==> !spec_handoff_done(observations@[j]),
        {
            let v = observations[i];
            if (v & 0x0100_0000u32 != 0) && (v & 0x0001_0000u32 == 0) {
                return Ok(i);
            }
        }
        Err(Error::HardwareNotResponding)
    }
}

/// The image of the software-written operational registers.
#[derive(Debug, Clone, Copy, PartialEq, Eq, Structural)]
pub struct HCOperationalRegisters {
    pub usb_cmd: u32,
    pub crcr: u64,
    pub dcbaap: u64,
    pub config: u32,
}

impl HCOperationalRegisters {
    /// A zeroed image, as after controller reset.
    pub fn new() -> (r: Self)
        ensures
            r.usb_cmd == 0,
            r.crcr == 0,
            r.dcbaap == 0,
            r.config == 0,
    {
        Self { usb_cmd: 0, crcr: 0, dcbaap: 0, config: 0 }
    }

    /// The fixed offsets of the operational registers: USBCMD at 0x00,
    /// USBSTS at 0x04, CRCR at 0x18, DCBAAP at 0x30, CONFIG at 0x38, and
    /// the port register sets from 0x400.
    pub fn layout(operational_base: u64) -> (r: OperationalLayout)
        requires
            operational_base + 0x400 <= u64::MAX,
        ensures
            r.usb_cmd == operational_base,
            r.usb_sts == operational_base + 0x04,
            r.crcr == operational_base + 0x18,
            r.dcbaap == operational_base + 0x30,
            r.config == operational_base + 0x38,
            r.port_sc_base == operational_base + 0x400,
    {
        OperationalLayout {
            usb_cmd: operational_base,
            usb_sts: operational_base + 0x04u64,
            crcr: operational_base + 0x18u64,
            dcbaap: operational_base + 0x30u64,
            config: operational_base + 0x38u64,
            port_sc_base: operational_base + 0x400u64,
        }
    }

    /// Requests a controller reset unless the observed status already
    /// shows the controller halted.
    pub fn reset_hc(&mut self, usb_sts: u32)
        ensures
            spec_hc_halted(usb_sts) ==> *final(self) == *old(self),
            !spec_hc_halted(usb_sts) ==> *final(self) == (HCOperationalRegisters {
                usb_cmd: old(self).usb_cmd | 2u32,
                ..*old(self)
            }),
    {
        if usb_sts & 1u32 != 0 {
            return ;
        }
        self.usb_cmd = self.usb_cmd | 2u32;
    }

    /// Bounded poll over successive USBCMD reads: `Ok(i)` exactly for the
    /// first read with HC-Reset clear again.
    pub fn wait_until_hc_is_reset(&self, observations: &Vec<u32>) -> (r: Result<usize, Error>)
        ensures
            r matches Ok(i) ==> i < observations@.len() && !spec_hc_reset(observations@[i as int])
                && forall|j: int| 0 <= j < i ==> spec_hc_reset(observations@[j]),
            r is Err ==> r->Err_0 == Error::HardwareNotResponding && forall|j: int|
                0 <= j < observations@.len() ==> spec_hc_reset(observations@[j]),
    {
        let n = observations.len();
        for i in 0..n
            invariant
                n == observations@.len(),
                forall|j: int| 0 <= j < i ==> spec_hc_reset(observations@[j]),
        {
            if observations[i] & 2u32 == 0 {
                return Ok(i);
            }
        }
        Err(Error::HardwareNotResponding)
    }

    /// Bounded poll over successive USBSTS reads: `Ok(i)` exactly for the
    /// first read with Controller-Not-Ready clear.
    pub fn wait_until_hc_is_ready(&self, observations: &Vec<u32>) -> (r: Result<usize, Error>)
        ensures
            r matches Ok(i) ==> i < observations@.len() && !spec_controller_not_ready(
                observations@[i as int],
            ) && forall|j: int| 0 <= j < i ==> spec_controller_not_ready(observations@[j]),
            r is Err ==> r->Err_0 == Error::HardwareNotResponding && forall|j: int|
                0 <= j < observations@.len() ==> spec_controller_not_ready(observations@[j]),
    {
        let n = observations.len();
        for i in 0..n
            invariant
                n == observations@.len(),
                forall|j: int| 0 <= j < i ==> spec_controller_not_ready(observations@[j]),
        {
            if observations[i] & 0x800u32 == 0 {
                return Ok(i);
            }
        }
        Err(Error::HardwareNotResponding)
    }

    /// CONFIG bits 7:0 — the number of device slots enabled.
    pub fn set_num_of_device_slots(&mut self, num: u32)
        ensures
            final(self).config == (old(self).config & !0xffu32) | (num & 0xffu32),
            final(self).usb_cmd == old(self).usb_cmd,
            final(self).crcr == old(self).crcr,
            final(self).dcbaap == old(self).dcbaap,
    {
        self.config = (self.config & !0xffu32) | (num & 0xffu32);
    }

    /// DCBAAP; its low 6 bits are reserved and must be zero.
    pub fn set_dcbaa_ptr(&mut self, addr: u64)
        requires
            addr & 0x3fu64 == 0,
        ensures
            final(self).dcbaap == addr,
            final(self).usb_cmd == old(self).usb_cmd,
            final(self).crcr == old(self).crcr,
            final(self).config == old(self).config,
    {
        self.dcbaap = addr;
    }

    /// CRCR holds pointer bits 63:6; the low 6 bits of the address are
    /// masked off.
    pub fn set_command_ring_ptr(&mut self, addr: u64)
        ensures
            final(self).crcr == addr & !0x3fu64,
            final(self).usb_cmd == old(self).usb_cmd,
            final(self).dcbaap == old(self).dcbaap,
            final(self).config == old(self).config,
    {
        self.crcr = addr & !0x3fu64;
    }

    /// USBCMD Interrupt-Enable, bit 2.
    pub fn enable_interrupt(&mut self)
        ensures
            final(self).usb_cmd == old(self).usb_cmd | 4u32,
            final(self).crcr == old(self).crcr,
            final(self).dcbaap == old(self).dcbaap,
            final(self).config == old(self).config,
    {
        self.usb_cmd = self.usb_cmd | 4u32;
    }

    /// Sets Run/Stop, then polls successive USBSTS reads for HC-Halted to
    /// clear: `Ok(i)` exactly for the first read with it clear.
    pub fn run(&mut self, observations: &Vec<u32>) -> (r: Result<usize, Error>)
        ensures
            final(self).usb_cmd == old(self).usb_cmd | 1u32,
            final(self).crcr == old(self).crcr,
            final(self).dcbaap == old(self).dcbaap,
            final(self).config == old(self).config,
            r matches Ok(i) ==> i < observations@.len() && !spec_hc_halted(
                observations@[i as int],
            ) && forall|j: int| 0 <= j < i ==> spec_hc_halted(observations@[j]),
            r is Err ==> r->Err_0 == Error::HardwareNotResponding && forall|j: int|
                0 <= j < observations@.len() ==> spec_hc_halted(observations@[j]),
    {
        self.usb_cmd = self.usb_cmd | 1u32;
        let n = observations.len();
        for i in 0..n
            invariant
                n == observations@.len(),
                self.usb_cmd == old(self).usb_cmd | 1u32,
                self.crcr == old(self).crcr,
                self.dcbaap == old(self).dcbaap,
                self.config == old(self).config,
                forall|j: int| 0 <= j < i ==> spec_hc_halted(observations@[j]),
        {
            if observations[i] & 1u32 == 0 {
                return Ok(i);
            }
        }
        Err(Error::HardwareNotResponding)
    }
}

/// The image of the software-written runtime registers of interrupter 0.
#[derive(Debug, Clone, Copy, PartialEq, Eq, Structural)]
pub struct RuntimeBaseRegisters {
    pub erst_sz: u32,
    pub erst_ba: u64,
    pub erd_p: u64,
}

impl RuntimeBaseRegisters {
    /// A zeroed image.
    pub fn new() -> (r: Self)
        ensures
            r.erst_sz == 0,
            r.erst_ba == 0,
            r.erd_p == 0,
    {
        Self { erst_sz: 0, erst_ba: 0, erd_p: 0 }
    }

    /// The fixed offsets of interrupter 0's registers past the runtime
    /// base: its register set starts at 0x20, with ERSTSZ at 0x28,
    /// ERSTBA at 0x30 and ERDP at 0x38.
    pub fn layout(runtime_base: u64) -> (r: RuntimeLayout)
        requires
            runtime_base + 0x38 <= u64::MAX,
        ensures
            r.erst_sz == runtime_base + 0x28,
            r.erst_ba == runtime_base + 0x30,
            r.erd_p == runtime_base + 0x38,
    {
        RuntimeLayout {
            erst_sz: runtime_base + 0x28u64,
            erst_ba: runtime_base + 0x30u64,
            erd_p: runtime_base + 0x38u64,
        }
    }

    /// ERSTSZ — how many segment-table entries are in use.
    pub fn set_segment_table_size(&mut self, size: u32)
        ensures
            final(self).erst_sz == size,
            final(self).erst_ba == old(self).erst_ba,
            final(self).erd_p == old(self).erd_p,
    {
        self.erst_sz = size;
    }

    /// ERSTBA — where the segment table lives.
    pub fn set_segment_table_addr(&mut self, addr: u64)
        ensures
            final(self).erst_ba == addr,
            final(self).erst_sz == old(self).erst_sz,
            final(self).erd_p == old(self).erd_p,
    {
        self.erst_ba = addr;
    }

    /// ERDP — where software will consume the next event.
    pub fn set_dequeue_ptr(&mut self, addr: u64)
        ensures
            final(self).erd_p == addr,
            final(self).erst_sz == old(self).erst_sz,
            final(self).erst_ba == old(self).erst_ba,
    {
        self.erd_p = addr;
    }
}

/// One observed PORTSC value.
#[derive(Debug, Clone, Copy, PartialEq, Eq, Structural)]
pub struct PortStatusAndControlRegister(pub u32);

/// PORTSC: Current-Connect-Status is bit 0.
pub open spec fn spec_connect_status(portsc: u32) -> bool {
    portsc & 1u32 != 0
}

/// PORTSC: Port-Enabled is bit 1.
pub open spec fn spec_port_enabled(portsc: u32) -> bool {
    portsc & 2u32 != 0
}

/// PORTSC: Port-Reset is bit 4.
pub open spec fn spec_port_reset(portsc: u32) -> bool {
    portsc & 0x10u32 != 0
}

/// PORTSC: Port-Power is bit 9.
pub open spec fn spec_port_power(portsc: u32) -> bool {
    portsc & 0x200u32 != 0
}

/// PORTSC: Port-Reset-Changed is bit 21.
pub open spec fn spec_port_reset_changed(portsc: u32) -> bool {
    portsc & 0x0020_0000u32 != 0
}

impl PortStatusAndControlRegister {
    pub fn new(value: u32) -> (r: Self)
        ensures
            r.0 == value,
    {
        Self(value)
    }

    pub fn current_connect_status(&self) -> (r: bool)
        ensures
            r == spec_connect_status(self.0),
    {
        self.0 & 1u32 != 0
    }

    pub fn port_enabled_disabled(&self) -> (r: bool)
        ensures
            r == spec_port_enabled(self.0),
    {
        self.0 & 2u32 != 0
    }

    pub fn port_reset(&self) -> (r: bool)
        ensures
            r == spec_port_reset(self.0),
    {
        self.0 & 0x10u32 != 0
    }

    pub fn port_power(&self) -> (r: bool)
        ensures
            r == spec_port_power(self.0),
    {
        self.0 & 0x200u32 != 0
    }

    pub fn port_reset_changed(&self) -> (r: bool)
        ensures
            r == spec_port_reset_changed(self.0),
    {
        self.0 & 0x0020_0000u32 != 0
    }

    /// A powered port with nothing connected, not enabled and not in
    /// reset.
    pub fn disconnected(&self) -> (r: bool)
        ensures
            r == (spec_port_power(self.0) && !spec_connect_status(self.0) && !spec_port_enabled(
                self.0,
            ) && !spec_port_reset(self.0)),
    {
        self.port_power() && !self.current_connect_status() && !self.port_enabled_disabled()
            && !self.port_reset()
    }

    /// The value to write back to start a port reset: the observed value
    /// with Port-Reset set.
    pub fn with_port_reset(&self) -> (r: Self)
        ensures
            r.0 == self.0 | 0x10u32,
    {
        Self(self.0 | 0x10u32)
    }
}

} // verus!
