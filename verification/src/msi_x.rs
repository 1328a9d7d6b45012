//! The MSI-X capability: message control, table location, and the
//! per-vector table entries.
//!
//! The capability occupies three dwords: id and next pointer in bits 15:0
//! of the first, message control in its bits 31:16, the table offset/BIR
//! dword second, and the PBA offset/BIR dword third. The vector table
//! itself lives in BAR memory; the library computes its address and the
//! entry values to store there.

use vstd::prelude::*;
use crate::config::{spec_space_len, Registers, RegisterIndex};

verus! {

/// Message control is the high half of the capability's first dword.
pub open spec fn spec_message_control(dword0: u32) -> u32 {
    dword0 >> 16u32
}

/// Table size is the low 11 bits of message control, plus one.
pub open spec fn spec_table_size(mc: u32) -> int {
    (mc & 0x7ffu32) + 1
}

/// Function mask is message-control bit 14.
pub open spec fn spec_function_mask(mc: u32) -> bool {
    mc & 0x4000u32 != 0
}

/// MSI-X enable is message-control bit 15.
pub open spec fn spec_msi_x_enabled(mc: u32) -> bool {
    mc & 0x8000u32 != 0
}

/// The BAR indicator: bits 2:0 of the table-offset dword.
pub open spec fn spec_bir(table: u32) -> u32 {
    table & 7u32
}

/// The table byte offset: the table-offset dword with its low 3 bits
/// masked off.
pub open spec fn spec_table_offset(table: u32) -> u32 {
    table & 0xffff_fff8u32
}

/// A parsed MSI-X capability, remembering where in configuration space it
/// sits so the enable bit can be written back.
#[derive(Debug, Clone, Copy)]
pub struct CapabilitySpec {
    offset: RegisterIndex,
    message_control: u32,
    table: u32,
    pba: u32,
}

impl CapabilitySpec {
    /// The fields were read from the capability at `offset` in `regs`,
    /// except that the message-control image may have been updated since.
    pub open spec fn located_at(&self, regs: Seq<u32>, offset: usize) -> bool {
        &&& self.spec_offset() == offset
        &&& self.spec_table_dword() == regs[offset + 1]
        &&& self.spec_pba_dword() == regs[offset + 2]
    }

    /// `located_at`, with the message-control image still as read.
    pub open spec fn parsed_from(&self, regs: Seq<u32>, offset: usize) -> bool {
        &&& self.located_at(regs, offset)
        &&& self.spec_control() == spec_message_control(regs[offset as int])
    }

    pub closed spec fn spec_offset(&self) -> usize {
        self.offset@
    }

    pub closed spec fn spec_control(&self) -> u32 {
        self.message_control
    }

    pub closed spec fn spec_table_dword(&self) -> u32 {
        self.table
    }

    pub closed spec fn spec_pba_dword(&self) -> u32 {
        self.pba
    }

    /// Parses the capability whose first dword sits at `offset`. Fails
    /// exactly when the three dwords do not fit inside the 64-register
    /// space.
    pub fn new(raw: &Registers, offset: RegisterIndex) -> (r: Option<Self>)
        requires
            raw.wf(),
            offset@ < RegisterIndex::limit(),
        ensures
            r is Some <==> offset@ + 2 < spec_space_len(),
            r is Some ==> r->0.parsed_from(raw@, offset@),
    {
        if offset.as_usize() + 2 < 64 {
            let dword0 = raw.get(offset);
            let table_index = RegisterIndex::new(offset.as_usize() + 1).unwrap();
            let pba_index = RegisterIndex::new(offset.as_usize() + 2).unwrap();
            Some(
                Self {
                    offset,
                    message_control: dword0 >> 16u32,
                    table: raw.get(table_index),
                    pba: raw.get(pba_index),
                },
            )
        } else {
            None
        }
    }

    /// Number of entries in the vector table.
    pub fn table_size(&self) -> (r: u32)
        ensures
            r == spec_table_size(self.spec_control()),
    {
        let mc = self.message_control;
        let low = mc & 0x7ffu32;
        assert(low <= 0x7ffu32) by (bit_vector)
            requires
                low == mc & 0x7ffu32,
        ;
        low + 1u32
    }

    pub fn bir(&self) -> (r: u32)
        ensures
            r == spec_bir(self.spec_table_dword()),
    {
        self.table & 7u32
    }

    pub fn table_offset(&self) -> (r: u32)
        ensures
            r == spec_table_offset(self.spec_table_dword()),
    {
        self.table & 0xffff_fff8u32
    }

    /// The byte address of the vector table: the indicated BAR's base plus
    /// the table offset.
    pub fn table_addr(&self, bar_base: u64) -> (r: u64)
        requires
            bar_base + spec_table_offset(self.spec_table_dword()) <= u64::MAX,
        ensures
            r == bar_base + spec_table_offset(self.spec_table_dword()),
    {
        bar_base + (self.table_offset() as u64)
    }

    /// Sets the MSI-X enable bit and clears the function mask in the
    /// message-control image.
    pub fn enable_interrupt(&mut self)
        ensures
            final(self).spec_control() == (old(self).spec_control() | 0x8000u32) & !0x4000u32,
            final(self).spec_offset() == old(self).spec_offset(),
            final(self).spec_table_dword() == old(self).spec_table_dword(),
            final(self).spec_pba_dword() == old(self).spec_pba_dword(),
            forall|regs: Seq<u32>, offset: usize|
                old(self).located_at(regs, offset) ==> final(self).located_at(regs, offset),
    {
        self.message_control = (self.message_control | 0x8000u32) & !0x4000u32;
    }

    /// The capability's first dword with the current message-control image
    /// merged into its high half, ready to write back.
    pub fn merged_control(&self, dword0: u32) -> (r: u32)
        ensures
            r == (dword0 & 0xffffu32) | (self.spec_control() << 16u32),
    {
        (dword0 & 0xffffu32) | (self.message_control << 16u32)
    }

    pub fn offset(&self) -> (r: RegisterIndex)
        ensures
            r@ == self.spec_offset(),
    {
        self.offset
    }
}

/// The image of one vector-table entry: message address, message data and
/// the per-entry mask, each field independently settable.
#[derive(Debug, Clone, Copy, PartialEq, Eq, Structural)]
pub struct VectorTableEntry {
    pub message_address_low: u32,
    pub message_address_high: u32,
    pub message_data: u32,
    pub vector_control: u32,
}

impl VectorTableEntry {
    /// A zeroed entry; hardware resets entries masked, so the mask bit is
    /// set.
    pub fn new() -> (r: Self)
        ensures
            r.message_address_low == 0,
            r.message_address_high == 0,
            r.message_data == 0,
            r.vector_control == 1,
    {
        Self { message_address_low: 0, message_address_high: 0, message_data: 0, vector_control: 1 }
    }

    /// Destination APIC id, bits 19:12 of the low message-address dword.
    pub fn set_destination_id(&mut self, id: u8)
        ensures
            final(self).message_address_low == (old(self).message_address_low & !0x000f_f000u32) | (
            (id as u32) << 12u32),
            final(self).message_address_high == old(self).message_address_high,
            final(self).message_data == old(self).message_data,
            final(self).vector_control == old(self).vector_control,
    {
        self.message_address_low = (self.message_address_low & !0x000f_f000u32) | ((id as u32)
            << 12u32);
    }

    /// Redirection hint, bit 3 of the low message-address dword.
    pub fn set_redirection_hint(&mut self, hint: bool)
        ensures
            final(self).message_address_low == if hint {
                old(self).message_address_low | 8u32
            } else {
                old(self).message_address_low & !8u32
            },
            final(self).message_address_high == old(self).message_address_high,
            final(self).message_data == old(self).message_data,
            final(self).vector_control == old(self).vector_control,
    {
        if hint {
            self.message_address_low = self.message_address_low | 8u32;
        } else {
            self.message_address_low = self.message_address_low & !8u32;
        }
    }

    /// Level-triggered delivery: trigger-mode bit 15 and level bit 14 of
    /// the message-data dword.
    pub fn set_level_trigger(&mut self)
        ensures
            final(self).message_data == old(self).message_data | 0xc000u32,
            final(self).message_address_low == old(self).message_address_low,
            final(self).message_address_high == old(self).message_address_high,
            final(self).vector_control == old(self).vector_control,
    {
        self.message_data = self.message_data | 0xc000u32;
    }

    /// Interrupt vector, bits 7:0 of the message-data dword.
    pub fn set_vector(&mut self, vector: u8)
        ensures
            final(self).message_data == (old(self).message_data & !0xffu32) | (vector as u32),
            final(self).message_address_low == old(self).message_address_low,
            final(self).message_address_high == old(self).message_address_high,
            final(self).vector_control == old(self).vector_control,
    {
        self.message_data = (self.message_data & !0xffu32) | (vector as u32);
    }

    /// Per-entry mask, bit 0 of the vector-control dword.
    pub fn set_mask(&mut self, mask: bool)
        ensures
            final(self).vector_control == if mask {
                old(self).vector_control | 1u32
            } else {
                old(self).vector_control & !1u32
            },
            final(self).message_address_low == old(self).message_address_low,
            final(self).message_address_high == old(self).message_address_high,
            final(self).message_data == old(self).message_data,
    {
        if mask {
            self.vector_control = self.vector_control | 1u32;
        } else {
            self.vector_control = self.vector_control & !1u32;
        }
    }
}

} // verus!
