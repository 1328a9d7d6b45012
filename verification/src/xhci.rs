//! One xHCI controller: its register images, rings, device-context
//! array and configuration space, and the strictly sequential bring-up.
//!
//! Construction accepts only a function whose class code is xHCI.
//! Bring-up runs the fixed step sequence: BIOS handoff, controller-ready
//! wait, device-slot count, DCBAA and command-ring pointers, MSI-X
//! programming, event-ring segment table, dequeue pointer, interrupt
//! enable, and run. Every hardware wait is a bounded poll over observed
//! status values and fails with a typed error instead of spinning.

use vstd::prelude::*;
use crate::command_ring::RingQueue;
use crate::config::{
    spec_class_code, spec_enabled_control, spec_msi_x_vector0, spec_table_address,
    spec_xhci_class, Error, MsiXProgramming, Space,
};
use crate::event_ring::{EventRing, SegmentTable, SegmentTableEntry};
use crate::extended_capability::spec_locate_msi_x;
use crate::registers::{
    spec_controller_not_ready, spec_handoff_done, spec_hc_halted, HCCapabilityRegisters,
    HCOperationalRegisters, RuntimeBaseRegisters, UsbLegacySupportCapability,
};

verus! {

/// Descriptors per command or event ring.
pub const NUM_OF_TRBS_IN_RING: usize = 16;

/// Device-context slots in the DCBAA; slot 0 is reserved.
pub const MAX_DEVICE_SLOT: usize = 255;

/// The Device Context Base Address Array: one pointer per device slot,
/// kept with the physical address of the array itself.
#[derive(Debug)]
pub struct DeviceContextBaseAddressArray {
    slots: Vec<u64>,
    base_addr: u64,
}

impl View for DeviceContextBaseAddressArray {
    type V = Seq<u64>;

    closed spec fn view(&self) -> Seq<u64> {
        self.slots@
    }
}

impl DeviceContextBaseAddressArray {
    pub closed spec fn spec_base_addr(&self) -> u64 {
        self.base_addr
    }

    /// A zeroed array at `base_addr`.
    pub fn new(base_addr: u64) -> (r: Self)
        ensures
            r@.len() == MAX_DEVICE_SLOT,
            forall|i: int| 0 <= i < MAX_DEVICE_SLOT ==> r@[i] == 0u64,
            r.spec_base_addr() == base_addr,
    {
        let mut slots: Vec<u64> = Vec::new();
        let mut i: usize = 0;
        while i < MAX_DEVICE_SLOT
            invariant
                i <= MAX_DEVICE_SLOT,
                slots@.len() == i,
                forall|k: int| 0 <= k < i ==> slots@[k] == 0u64,
            decreases MAX_DEVICE_SLOT - i,
        {
            slots.push(0u64);
            i = i + 1;
        }
        Self { slots, base_addr }
    }

    /// The physical address programmed into DCBAAP.
    pub fn addr(&self) -> (r: u64)
        ensures
            r == self.spec_base_addr(),
    {
        self.base_addr
    }

    pub fn len(&self) -> (r: usize)
        ensures
            r == self@.len(),
    {
        self.slots.len()
    }
}

/// The physical addresses of the DMA allocations one controller needs,
/// provided by the caller's allocator. The pointer registers reserve
/// their low 6 bits, so each address must be 64-byte aligned.
#[derive(Debug, Clone, Copy, PartialEq, Eq, Structural)]
pub struct MemoryRegions {
    pub dcbaa: u64,
    pub command_ring: u64,
    pub event_ring: u64,
    pub segment_table: u64,
}

impl MemoryRegions {
    pub open spec fn wf(self) -> bool {
        &&& self.dcbaa & 0x3fu64 == 0
        &&& self.command_ring & 0x3fu64 == 0
        &&& self.event_ring & 0x3fu64 == 0
        &&& self.segment_table & 0x3fu64 == 0
    }
}

/// Everything read off one candidate function before construction: its
/// configuration-space snapshot, the USB Legacy Support dword, the
/// capability registers, and the memory set aside for it.
#[derive(Debug)]
pub struct DiscoveredFunction {
    pub space: Space,
    pub usb_leg_sup: u32,
    pub capability_registers: HCCapabilityRegisters,
    pub regions: MemoryRegions,
}

impl View for DiscoveredFunction {
    type V = (Seq<u32>, u32, HCCapabilityRegisters, MemoryRegions);

    open spec fn view(&self) -> (Seq<u32>, u32, HCCapabilityRegisters, MemoryRegions) {
        (self.space@, self.usb_leg_sup, self.capability_registers, self.regions)
    }
}

/// One controller instance.
pub struct Xhci {
    usb_legacy_support_capability: UsbLegacySupportCapability,
    hc_capability_registers: HCCapabilityRegisters,
    hc_operational_registers: HCOperationalRegisters,
    dcbaa: DeviceContextBaseAddressArray,
    command_ring: RingQueue,
    event_ring: EventRing,
    runtime_base_registers: RuntimeBaseRegisters,
    event_ring_segment_table: SegmentTable,
    config_space: Space,
    msi_x: Option<MsiXProgramming>,
}

impl Xhci {
    pub closed spec fn spec_config(&self) -> Seq<u32> {
        self.config_space@
    }

    pub closed spec fn spec_legacy(&self) -> UsbLegacySupportCapability {
        self.usb_legacy_support_capability
    }

    pub closed spec fn spec_capability_registers(&self) -> HCCapabilityRegisters {
        self.hc_capability_registers
    }

    pub closed spec fn spec_operational(&self) -> HCOperationalRegisters {
        self.hc_operational_registers
    }

    pub closed spec fn spec_runtime(&self) -> RuntimeBaseRegisters {
        self.runtime_base_registers
    }

    pub closed spec fn spec_command_ring(&self) -> crate::command_ring::RingQueueView {
        self.command_ring@
    }

    pub closed spec fn spec_event_ring(&self) -> crate::event_ring::EventRingView {
        self.event_ring@
    }

    pub closed spec fn spec_dcbaa_addr(&self) -> u64 {
        self.dcbaa.spec_base_addr()
    }

    pub closed spec fn spec_dcbaa(&self) -> Seq<u64> {
        self.dcbaa@
    }

    pub closed spec fn spec_segment_table(&self) -> SegmentTableEntry {
        self.event_ring_segment_table@
    }

    pub closed spec fn spec_segment_table_addr(&self) -> u64 {
        self.event_ring_segment_table.spec_base_addr()
    }

    pub closed spec fn spec_msi_x(&self) -> Option<MsiXProgramming> {
        self.msi_x
    }

    pub open spec fn wf(&self) -> bool {
        &&& self.spec_config().len() == crate::config::spec_space_len()
        &&& spec_class_code(self.spec_config()) == spec_xhci_class()
        &&& self.spec_command_ring().wf()
        &&& self.spec_event_ring().wf()
        &&& self.spec_dcbaa_addr() & 0x3fu64 == 0
    }

    /// The freshly constructed state: images as read or zeroed, the rings
    /// and the DCBAA all-zero at their assigned addresses — what the
    /// caller materializes in DMA memory before the pointers are
    /// programmed — and nothing programmed yet.
    pub open spec fn spec_fresh(
        &self,
        config: Seq<u32>,
        usb_leg_sup: u32,
        caps: HCCapabilityRegisters,
        regions: MemoryRegions,
    ) -> bool {
        &&& self.spec_config() == config
        &&& self.spec_legacy().usb_leg_sup == usb_leg_sup
        &&& self.spec_capability_registers() == caps
        &&& self.spec_operational() == (HCOperationalRegisters {
            usb_cmd: 0,
            crcr: 0,
            dcbaap: 0,
            config: 0,
        })
        &&& self.spec_runtime() == (RuntimeBaseRegisters { erst_sz: 0, erst_ba: 0, erd_p: 0 })
        &&& self.spec_command_ring().slots.len() == NUM_OF_TRBS_IN_RING
        &&& forall|i: int|
            0 <= i < self.spec_command_ring().slots.len()
                ==> #[trigger] self.spec_command_ring().slots[i] == 0u128
        &&& self.spec_command_ring().enqueue_index == 0
        &&& self.spec_command_ring().cycle == true
        &&& self.spec_command_ring().base == regions.command_ring
        &&& self.spec_event_ring().slots.len() == NUM_OF_TRBS_IN_RING
        &&& forall|i: int|
            0 <= i < self.spec_event_ring().slots.len()
                ==> #[trigger] self.spec_event_ring().slots[i] == 0u128
        &&& self.spec_event_ring().dequeue_index == 0
        &&& self.spec_event_ring().cycle == true
        &&& self.spec_event_ring().base == regions.event_ring
        &&& self.spec_dcbaa_addr() == regions.dcbaa
        &&& self.spec_dcbaa().len() == MAX_DEVICE_SLOT
        &&& forall|i: int|
            0 <= i < self.spec_dcbaa().len() ==> #[trigger] self.spec_dcbaa()[i] == 0u64
        &&& self.spec_segment_table() == (SegmentTableEntry { base_address: 0, segment_size: 0 })
        &&& self.spec_segment_table_addr() == regions.segment_table
        &&& self.spec_msi_x() is None
    }

    /// Accepts the function only when its class code is xHCI; everything
    /// else is `WrongDeviceClass`.
    pub fn new(
        config_space: Space,
        usb_leg_sup: u32,
        capability_registers: HCCapabilityRegisters,
        regions: MemoryRegions,
    ) -> (r: Result<Self, Error>)
        requires
            config_space.wf(),
            regions.wf(),
        ensures
            r is Ok <==> spec_class_code(config_space@) == spec_xhci_class(),
            r is Err ==> r->Err_0 == Error::WrongDeviceClass,
            r matches Ok(xhci) ==> xhci.wf() && xhci.spec_fresh(
                config_space@,
                usb_leg_sup,
                capability_registers,
                regions,
            ),
    {
        if config_space.is_xhci() {
            Ok(Self::generate(config_space, usb_leg_sup, capability_registers, regions))
        } else {
            Err(Error::WrongDeviceClass)
        }
    }

    fn generate(
        config_space: Space,
        usb_leg_sup: u32,
        capability_registers: HCCapabilityRegisters,
        regions: MemoryRegions,
    ) -> (r: Self)
        requires
            config_space.wf(),
            spec_class_code(config_space@) == spec_xhci_class(),
            regions.wf(),
        ensures
            r.wf(),
            r.spec_fresh(config_space@, usb_leg_sup, capability_registers, regions),
    {
        Self {
            usb_legacy_support_capability: UsbLegacySupportCapability::new(usb_leg_sup),
            hc_capability_registers: capability_registers,
            hc_operational_registers: HCOperationalRegisters::new(),
            dcbaa: DeviceContextBaseAddressArray::new(regions.dcbaa),
            command_ring: RingQueue::new(NUM_OF_TRBS_IN_RING, regions.command_ring),
            event_ring: EventRing::new(NUM_OF_TRBS_IN_RING, regions.event_ring),
            runtime_base_registers: RuntimeBaseRegisters::new(),
            event_ring_segment_table: SegmentTable::new(regions.segment_table),
            config_space,
            msi_x: None,
        }
    }

    /// Everything but the configuration-space image, the operational and
    /// runtime images, the legacy-support image, the segment-table entry
    /// and the MSI-X record stays as it was.
    pub open spec fn spec_same_but_programming(&self, other: &Self) -> bool {
        &&& self.spec_capability_registers() == other.spec_capability_registers()
        &&& self.spec_command_ring() == other.spec_command_ring()
        &&& self.spec_event_ring() == other.spec_event_ring()
        &&& self.spec_dcbaa_addr() == other.spec_dcbaa_addr()
        &&& self.spec_dcbaa() == other.spec_dcbaa()
        &&& self.spec_segment_table_addr() == other.spec_segment_table_addr()
    }

    /// Step 1, BIOS handoff: requests OS ownership in the legacy-support
    /// image and polls the observed dword until the OS owns the
    /// controller and the BIOS does not.
    pub fn get_ownership_from_bios(&mut self, observations: &Vec<u32>) -> (r: Result<usize, Error>)
        ensures
            final(self).spec_legacy().usb_leg_sup == old(self).spec_legacy().usb_leg_sup
                | 0x0100_0000u32,
            final(self).spec_operational() == old(self).spec_operational(),
            final(self).spec_runtime() == old(self).spec_runtime(),
            final(self).spec_config() == old(self).spec_config(),
            final(self).spec_segment_table() == old(self).spec_segment_table(),
            final(self).spec_msi_x() == old(self).spec_msi_x(),
            final(self).spec_same_but_programming(old(self)),
            r is Ok <==> exists|i: int|
                0 <= i < observations@.len() && spec_handoff_done(#[trigger] observations@[i]),
            r is Err ==> r->Err_0 == Error::HardwareNotResponding,
    {
        self.usb_legacy_support_capability.request_hc_ownership(true);
        let r = self.usb_legacy_support_capability.wait_until_os_owns(observations);
        proof {
            if r is Ok {
                assert(spec_handoff_done(observations@[r->Ok_0 as int]));
            }
        }
        r
    }

    /// Step 2: polls the observed USBSTS values until Controller-Not-Ready
    /// clears.
    pub fn wait_until_controller_is_ready(&self, observations: &Vec<u32>) -> (r: Result<
        usize,
        Error,
    >)
        ensures
            r is Ok <==> exists|i: int|
                0 <= i < observations@.len() && !spec_controller_not_ready(
                    #[trigger] observations@[i],
                ),
            r is Err ==> r->Err_0 == Error::HardwareNotResponding,
    {
        let r = self.hc_operational_registers.wait_until_hc_is_ready(observations);
        proof {
            if r is Ok {
                assert(!spec_controller_not_ready(observations@[r->Ok_0 as int]));
            }
        }
        r
    }

    /// Step 3: copies the supported slot count from HCSPARAMS1 into the
    /// CONFIG image.
    pub fn set_num_of_enabled_slots(&mut self)
        ensures
            final(self).spec_operational() == (HCOperationalRegisters {
                config: (old(self).spec_operational().config & !0xffu32) | (
                old(self).spec_capability_registers().hcs_params_1 & 0xffu32),
                ..old(self).spec_operational()
            }),
            final(self).spec_legacy() == old(self).spec_legacy(),
            final(self).spec_runtime() == old(self).spec_runtime(),
            final(self).spec_config() == old(self).spec_config(),
            final(self).spec_segment_table() == old(self).spec_segment_table(),
            final(self).spec_msi_x() == old(self).spec_msi_x(),
            final(self).spec_same_but_programming(old(self)),
    {
        let num = self.hc_capability_registers.number_of_device_slots();
        let h = self.hc_capability_registers.hcs_params_1;
        assert((h & 0xffu32) & 0xffu32 == h & 0xffu32) by (bit_vector);
        self.hc_operational_registers.set_num_of_device_slots(num);
    }

    /// Step 4: programs the DCBAA's physical address, whose low 6 bits
    /// are zero, into the DCBAAP image.
    pub fn set_dcbaap(&mut self)
        requires
            old(self).spec_dcbaa_addr() & 0x3fu64 == 0,
        ensures
            final(self).spec_operational() == (HCOperationalRegisters {
                dcbaap: old(self).spec_dcbaa_addr(),
                ..old(self).spec_operational()
            }),
            final(self).spec_legacy() == old(self).spec_legacy(),
            final(self).spec_runtime() == old(self).spec_runtime(),
            final(self).spec_config() == old(self).spec_config(),
            final(self).spec_segment_table() == old(self).spec_segment_table(),
            final(self).spec_msi_x() == old(self).spec_msi_x(),
            final(self).spec_same_but_programming(old(self)),
    {
        let addr = self.dcbaa.addr();
        self.hc_operational_registers.set_dcbaa_ptr(addr);
    }

    /// Step 5: programs the command ring's physical base, low 6 bits
    /// masked, into the CRCR image.
    pub fn set_command_ring_pointer(&mut self)
        ensures
            final(self).spec_operational() == (HCOperationalRegisters {
                crcr: old(self).spec_command_ring().base & !0x3fu64,
                ..old(self).spec_operational()
            }),
            final(self).spec_legacy() == old(self).spec_legacy(),
            final(self).spec_runtime() == old(self).spec_runtime(),
            final(self).spec_config() == old(self).spec_config(),
            final(self).spec_segment_table() == old(self).spec_segment_table(),
            final(self).spec_msi_x() == old(self).spec_msi_x(),
            final(self).spec_same_but_programming(old(self)),
    {
        let addr = self.command_ring.phys_addr();
        self.hc_operational_registers.set_command_ring_ptr(addr);
    }

    /// Step 6 and the MSI-X half of step 8: resolves the MSI-X
    /// capability, computes the vector-table address and the vector-0
    /// entry for the given local APIC id, and enables MSI-X in the
    /// configuration image. Fails with the cause `spec_locate_msi_x`
    /// and `spec_table_address` assign.
    pub fn init_msi_x_table(&mut self, local_apic_id: u8) -> (r: Result<(), Error>)
        requires
            old(self).wf(),
        ensures
            final(self).wf(),
            final(self).spec_legacy() == old(self).spec_legacy(),
            final(self).spec_operational() == old(self).spec_operational(),
            final(self).spec_runtime() == old(self).spec_runtime(),
            final(self).spec_segment_table() == old(self).spec_segment_table(),
            final(self).spec_same_but_programming(old(self)),
            r is Ok <==> spec_msi_x_available(old(self).spec_config()),
            !spec_msi_x_available(old(self).spec_config()) ==> final(self).spec_config() == old(
                self,
            ).spec_config() && final(self).spec_msi_x() == old(self).spec_msi_x() && (r
                == Result::<(), Error>::Err(Error::MalformedCapabilityChain) || r == Result::<
                (),
                Error,
            >::Err(Error::MsiXCapabilityMissing)),
            spec_msi_x_available(old(self).spec_config()) ==> ({
                let regs = old(self).spec_config();
                let off = spec_locate_msi_x(regs)->Ok_0;
                &&& final(self).spec_msi_x() matches Some(p)
                &&& p.table_address == spec_table_address(regs, off)->0
                &&& p.vector0 == spec_msi_x_vector0(local_apic_id, 0x40u8)
                &&& p.control_register == off
                &&& p.control_value == spec_enabled_control(regs[off as int])
                &&& final(self).spec_config() == regs.update(
                    off as int,
                    spec_enabled_control(regs[off as int]),
                )
            }),
    {
        proof {
            if spec_locate_msi_x(old(self).spec_config()) is Ok {
                crate::extended_capability::lemma_locate_msi_x_usable(old(self).spec_config());
            }
        }
        match self.config_space.init_msi_for_xhci(local_apic_id) {
            Ok(programming) => {
                self.msi_x = Some(programming);
                Ok(())
            },
            Err(e) => Err(e),
        }
    }

    /// Step 7: describes the event ring in segment-table entry 0, then
    /// programs ERSTSZ = 1 and ERSTBA with the table's address.
    pub fn init_event_ring_segment_table(&mut self)
        ensures
            final(self).spec_segment_table() == (SegmentTableEntry {
                base_address: old(self).spec_event_ring().base,
                segment_size: old(self).spec_event_ring().slots.len() as u64,
            }),
            final(self).spec_runtime() == (RuntimeBaseRegisters {
                erst_sz: 1,
                erst_ba: old(self).spec_segment_table_addr(),
                erd_p: old(self).spec_runtime().erd_p,
            }),
            final(self).spec_legacy() == old(self).spec_legacy(),
            final(self).spec_operational() == old(self).spec_operational(),
            final(self).spec_config() == old(self).spec_config(),
            final(self).spec_msi_x() == old(self).spec_msi_x(),
            final(self).spec_same_but_programming(old(self)),
    {
        let ring_addr = self.event_ring.phys_addr();
        let ring_len = self.event_ring.len();
        self.event_ring_segment_table.set_base_address(ring_addr);
        self.event_ring_segment_table.set_segment_size(ring_len as u64);
        self.set_event_ring_segment_table_size();
        self.set_event_ring_segment_table_address();
    }

    /// ERSTSZ: a single segment.
    pub fn set_event_ring_segment_table_size(&mut self)
        ensures
            final(self).spec_runtime() == (RuntimeBaseRegisters {
                erst_sz: 1,
                ..old(self).spec_runtime()
            }),
            final(self).spec_legacy() == old(self).spec_legacy(),
            final(self).spec_operational() == old(self).spec_operational(),
            final(self).spec_config() == old(self).spec_config(),
            final(self).spec_segment_table() == old(self).spec_segment_table(),
            final(self).spec_msi_x() == old(self).spec_msi_x(),
            final(self).spec_same_but_programming(old(self)),
    {
        self.runtime_base_registers.set_segment_table_size(1);
    }

    /// ERSTBA: where the segment table lives.
    pub fn set_event_ring_segment_table_address(&mut self)
        ensures
            final(self).spec_runtime() == (RuntimeBaseRegisters {
                erst_ba: old(self).spec_segment_table_addr(),
                ..old(self).spec_runtime()
            }),
            final(self).spec_legacy() == old(self).spec_legacy(),
            final(self).spec_operational() == old(self).spec_operational(),
            final(self).spec_config() == old(self).spec_config(),
            final(self).spec_segment_table() == old(self).spec_segment_table(),
            final(self).spec_msi_x() == old(self).spec_msi_x(),
            final(self).spec_same_but_programming(old(self)),
    {
        let addr = self.event_ring_segment_table.address();
        self.runtime_base_registers.set_segment_table_addr(addr);
    }

    /// ERDP: software will consume the first event at the segment base.
    pub fn set_event_ring_dequeue_pointer(&mut self)
        ensures
            final(self).spec_runtime() == (RuntimeBaseRegisters {
                erd_p: old(self).spec_event_ring().base,
                ..old(self).spec_runtime()
            }),
            final(self).spec_legacy() == old(self).spec_legacy(),
            final(self).spec_operational() == old(self).spec_operational(),
            final(self).spec_config() == old(self).spec_config(),
            final(self).spec_segment_table() == old(self).spec_segment_table(),
            final(self).spec_msi_x() == old(self).spec_msi_x(),
            final(self).spec_same_but_programming(old(self)),
    {
        let addr = self.event_ring.phys_addr();
        self.runtime_base_registers.set_dequeue_ptr(addr);
    }

    /// The operational half of step 8: USBCMD Interrupt-Enable.
    pub fn enable_system_bus_interrupt_generation(&mut self)
        ensures
            final(self).spec_operational() == (HCOperationalRegisters {
                usb_cmd: old(self).spec_operational().usb_cmd | 4u32,
                ..old(self).spec_operational()
            }),
            final(self).spec_legacy() == old(self).spec_legacy(),
            final(self).spec_runtime() == old(self).spec_runtime(),
            final(self).spec_config() == old(self).spec_config(),
            final(self).spec_segment_table() == old(self).spec_segment_table(),
            final(self).spec_msi_x() == old(self).spec_msi_x(),
            final(self).spec_same_but_programming(old(self)),
    {
        self.hc_operational_registers.enable_interrupt();
    }

    /// Step 9: sets Run/Stop and polls the observed USBSTS values until
    /// HC-Halted clears.
    pub fn run(&mut self, observations: &Vec<u32>) -> (r: Result<usize, Error>)
        ensures
            final(self).spec_operational() == (HCOperationalRegisters {
                usb_cmd: old(self).spec_operational().usb_cmd | 1u32,
                ..old(self).spec_operational()
            }),
            final(self).spec_legacy() == old(self).spec_legacy(),
            final(self).spec_runtime() == old(self).spec_runtime(),
            final(self).spec_config() == old(self).spec_config(),
            final(self).spec_segment_table() == old(self).spec_segment_table(),
            final(self).spec_msi_x() == old(self).spec_msi_x(),
            final(self).spec_same_but_programming(old(self)),
            r is Ok <==> exists|i: int|
                0 <= i < observations@.len() && !spec_hc_halted(#[trigger] observations@[i]),
            r is Err ==> r->Err_0 == Error::HardwareNotResponding,
    {
        let r = self.hc_operational_registers.run(observations);
        proof {
            if r is Ok {
                assert(!spec_hc_halted(observations@[r->Ok_0 as int]));
            }
        }
        r
    }

    /// The whole bring-up, strictly sequential with no backtracking.
    /// Succeeds exactly when the BIOS hands the controller over, the
    /// controller reports ready, the MSI-X table can be resolved, and the
    /// controller leaves its halted state; on success the images hold
    /// everything the nine steps programmed.
    pub fn init(
        &mut self,
        local_apic_id: u8,
        handoff_observations: &Vec<u32>,
        ready_observations: &Vec<u32>,
        run_observations: &Vec<u32>,
    ) -> (r: Result<(), Error>)
        requires
            old(self).wf(),
        ensures
            final(self).wf(),
            r is Ok <==> ({
                &&& exists|i: int|
                    0 <= i < handoff_observations@.len() && spec_handoff_done(
                        #[trigger] handoff_observations@[i],
                    )
                &&& exists|i: int|
                    0 <= i < ready_observations@.len() && !spec_controller_not_ready(
                        #[trigger] ready_observations@[i],
                    )
                &&& spec_msi_x_available(old(self).spec_config())
                &&& exists|i: int|
                    0 <= i < run_observations@.len() && !spec_hc_halted(
                        #[trigger] run_observations@[i],
                    )
            }),
            r is Ok ==> ({
                let regs = old(self).spec_config();
                let off = spec_locate_msi_x(regs)->Ok_0;
                &&& final(self).spec_legacy().usb_leg_sup == old(self).spec_legacy().usb_leg_sup
                    | 0x0100_0000u32
                &&& final(self).spec_operational() == (HCOperationalRegisters {
                    usb_cmd: (old(self).spec_operational().usb_cmd | 4u32) | 1u32,
                    crcr: old(self).spec_command_ring().base & !0x3fu64,
                    dcbaap: old(self).spec_dcbaa_addr(),
                    config: (old(self).spec_operational().config & !0xffu32) | (
                    old(self).spec_capability_registers().hcs_params_1 & 0xffu32),
                })
                &&& final(self).spec_runtime() == (RuntimeBaseRegisters {
                    erst_sz: 1,
                    erst_ba: old(self).spec_segment_table_addr(),
                    erd_p: old(self).spec_event_ring().base,
                })
                &&& final(self).spec_segment_table() == (SegmentTableEntry {
                    base_address: old(self).spec_event_ring().base,
                    segment_size: old(self).spec_event_ring().slots.len() as u64,
                })
                &&& final(self).spec_msi_x() matches Some(p)
                &&& final(self).spec_msi_x()->0.table_address == spec_table_address(regs, off)->0
                &&& final(self).spec_msi_x()->0.vector0 == spec_msi_x_vector0(
                    local_apic_id,
                    0x40u8,
                )
                &&& final(self).spec_msi_x()->0.control_register == off
                &&& final(self).spec_msi_x()->0.control_value == spec_enabled_control(
                    regs[off as int],
                )
                &&& final(self).spec_config() == regs.update(
                    off as int,
                    spec_enabled_control(regs[off as int]),
                )
                &&& final(self).spec_same_but_programming(old(self))
            }),
            r is Err ==> r->Err_0 == Error::HardwareNotResponding || r->Err_0
                == Error::MalformedCapabilityChain || r->Err_0 == Error::MsiXCapabilityMissing,
    {
        if self.get_ownership_from_bios(handoff_observations).is_err() {
            return Err(Error::HardwareNotResponding);
        }
        if self.wait_until_controller_is_ready(ready_observations).is_err() {
            return Err(Error::HardwareNotResponding);
        }
        self.set_num_of_enabled_slots();
        self.set_dcbaap();
        self.set_command_ring_pointer();
        match self.init_msi_x_table(local_apic_id) {
            Err(e) => {
                return Err(e);
            },
            Ok(()) => {},
        }
        self.init_event_ring_segment_table();
        self.set_event_ring_dequeue_pointer();
        self.enable_system_bus_interrupt_generation();
        if self.run(run_observations).is_err() {
            return Err(Error::HardwareNotResponding);
        }
        Ok(())
    }

    pub fn legacy_support(&self) -> (r: UsbLegacySupportCapability)
        ensures
            r == self.spec_legacy(),
    {
        self.usb_legacy_support_capability
    }

    pub fn capability_registers(&self) -> (r: HCCapabilityRegisters)
        ensures
            r == self.spec_capability_registers(),
    {
        self.hc_capability_registers
    }

    pub fn operational_registers(&self) -> (r: HCOperationalRegisters)
        ensures
            r == self.spec_operational(),
    {
        self.hc_operational_registers
    }

    pub fn runtime_registers(&self) -> (r: RuntimeBaseRegisters)
        ensures
            r == self.spec_runtime(),
    {
        self.runtime_base_registers
    }

    pub fn segment_table_entry(&self) -> (r: SegmentTableEntry)
        ensures
            r == self.spec_segment_table(),
    {
        self.event_ring_segment_table.entry()
    }

    pub fn msi_x_programming(&self) -> (r: Option<MsiXProgramming>)
        ensures
            r == self.spec_msi_x(),
    {
        self.msi_x
    }

    pub fn config_space(&self) -> (r: &Space)
        ensures
            r@ == self.spec_config(),
    {
        &self.config_space
    }

    pub fn command_ring(&self) -> (r: &RingQueue)
        ensures
            r@ == self.spec_command_ring(),
    {
        &self.command_ring
    }

    pub fn event_ring(&self) -> (r: &EventRing)
        ensures
            r@ == self.spec_event_ring(),
    {
        &self.event_ring
    }
}

/// An MSI-X capability can be located and its vector table resolved to
/// an address: what a successful bring-up needs of the function.
pub open spec fn spec_msi_x_available(regs: Seq<u32>) -> bool {
    &&& spec_locate_msi_x(regs) is Ok
    &&& spec_table_address(regs, spec_locate_msi_x(regs)->Ok_0) is Some
}

/// The per-candidate views, in order.
pub open spec fn spec_candidate_views(cands: Seq<DiscoveredFunction>) -> Seq<
    (Seq<u32>, u32, HCCapabilityRegisters, MemoryRegions),
> {
    cands.map_values(|c: DiscoveredFunction| c@)
}

/// The candidates whose class code is xHCI, keeping their order.
pub open spec fn spec_xhci_filter(
    cands: Seq<(Seq<u32>, u32, HCCapabilityRegisters, MemoryRegions)>,
) -> Seq<(Seq<u32>, u32, HCCapabilityRegisters, MemoryRegions)>
    decreases cands.len(),
{
    if cands.len() == 0 {
        Seq::empty()
    } else if spec_class_code(cands[0].0) == spec_xhci_class() {
        seq![cands[0]] + spec_xhci_filter(cands.drop_first())
    } else {
        spec_xhci_filter(cands.drop_first())
    }
}

/// Constructs one controller for every candidate function whose class
/// code is xHCI, in discovery order, each freshly set up on its own
/// memory; the other candidates are skipped.
pub fn iter_devices(candidates: Vec<DiscoveredFunction>) -> (r: Vec<Xhci>)
    requires
        forall|k: int|
            0 <= k < candidates@.len() ==> (#[trigger] candidates@[k]).space.wf()
                && candidates@[k].regions.wf(),
    ensures
        ({
            let picked = spec_xhci_filter(spec_candidate_views(candidates@));
            &&& r@.len() == picked.len()
            &&& forall|k: int|
                0 <= k < picked.len() ==> (#[trigger] r@[k]).wf() && r@[k].spec_fresh(
                    picked[k].0,
                    picked[k].1,
                    picked[k].2,
                    picked[k].3,
                )
        }),
{
    let ghost picked = spec_xhci_filter(spec_candidate_views(candidates@));
    let mut rest = candidates;
    let mut result: Vec<Xhci> = Vec::new();
    #[verifier::loop_isolation(false)]
    loop
        invariant
            forall|k: int|
                0 <= k < rest@.len() ==> (#[trigger] rest@[k]).space.wf()
                    && rest@[k].regions.wf(),
            result@.len() <= picked.len(),
            picked.skip(result@.len() as int) == spec_xhci_filter(
                spec_candidate_views(rest@),
            ),
            forall|k: int|
                0 <= k < result@.len() ==> (#[trigger] result@[k]).wf() && result@[k].spec_fresh(
                    picked[k].0,
                    picked[k].1,
                    picked[k].2,
                    picked[k].3,
                ),
        decreases rest@.len(),
    {
        if rest.len() == 0 {
            proof {
                let views = spec_candidate_views(rest@);
                assert(views.len() == 0);
                assert(spec_xhci_filter(views) == Seq::<
                    (Seq<u32>, u32, HCCapabilityRegisters, MemoryRegions),
                >::empty());
                assert(picked.skip(result@.len() as int).len() == 0);
                assert(picked.len() == result@.len());
            }
            return result;
        }
        let ghost rest_views = spec_candidate_views(rest@);
        let candidate = rest.remove(0);
        let is_xhci = candidate.space.is_xhci();
        proof {
            assert(spec_candidate_views(rest@) =~= rest_views.drop_first());
            assert(rest_views[0] == candidate@);
        }
        if is_xhci {
            let ghost n = result@.len() as int;
            proof {
                assert(spec_xhci_filter(rest_views) == seq![candidate@] + spec_xhci_filter(
                    rest_views.drop_first(),
                ));
                assert(picked.skip(n)[0] == candidate@);
                assert(picked[n] == candidate@);
                assert(picked.skip(n).drop_first() =~= picked.skip(n + 1));
            }
            let xhci = match Xhci::new(
                candidate.space,
                candidate.usb_leg_sup,
                candidate.capability_registers,
                candidate.regions,
            ) {
                Ok(x) => x,
                Err(_) => {
                    proof {
                        assert(false);
                    }
                    return result;
                },
            };
            result.push(xhci);
        } else {
            proof {
                assert(spec_xhci_filter(rest_views) == spec_xhci_filter(rest_views.drop_first()));
            }
        }
    }
}

} // verus!
