//! Base-address registers of a non-bridge configuration header.
//!
//! Six BAR slots live in dwords 4..10. A memory BAR is 32- or 64-bit wide;
//! a 64-bit BAR consumes two consecutive slots, low half first.

use vstd::prelude::*;
use crate::config::{spec_space_len, Registers, RegisterIndex};

verus! {

/// Number of BAR slots in a non-bridge header.
pub open spec fn spec_bar_count() -> usize {
    6
}

/// A BAR slot index; valid values are `0..6`.
#[derive(Debug, Clone, Copy)]
pub struct Index(usize);

impl View for Index {
    type V = usize;

    closed spec fn view(&self) -> usize {
        self.0
    }
}

impl Index {
    /// Construction succeeds exactly for slot numbers below 6.
    pub fn new(index: usize) -> (r: Option<Self>)
        ensures
            r is Some <==> index < spec_bar_count(),
            r is Some ==> r->0@ == index,
    {
        if index < 6 {
            Some(Self(index))
        } else {
            None
        }
    }

    pub fn as_usize(self) -> (r: usize)
        ensures
            r == self@,
    {
        self.0
    }
}

/// One decoded base-address register.
#[derive(Debug, Clone, Copy, PartialEq, Eq, Structural)]
pub enum Bar {
    /// A 32-bit memory BAR; the base has the low four bits masked off.
    Memory32(u32),
    /// A 64-bit memory BAR, combined from two consecutive slots.
    Memory64(u64),
    /// An I/O-space BAR; the base has the low two bits masked off.
    Io(u32),
}

impl Bar {
    /// The base address, widened to a full physical address.
    pub fn base(self) -> (r: u64)
        ensures
            r == self.spec_base(),
    {
        match self {
            Bar::Memory32(b) => b as u64,
            Bar::Memory64(b) => b,
            Bar::Io(b) => b as u64,
        }
    }

    pub open spec fn spec_base(self) -> u64 {
        match self {
            Bar::Memory32(b) => b as u64,
            Bar::Memory64(b) => b,
            Bar::Io(b) => b as u64,
        }
    }
}

/// The decoded BAR in the given slot, from the raw dwords: `None` for a
/// reserved memory type, or for a 64-bit BAR whose high half would fall
/// outside the header.
pub open spec fn spec_bar(regs: Seq<u32>, index: usize) -> Option<Bar> {
    let low = regs[4 + index as int];
    if low & 1u32 == 1u32 {
        Some(Bar::Io(low & 0xffff_fffcu32))
    } else if (low >> 1u32) & 3u32 == 0u32 {
        Some(Bar::Memory32(low & 0xffff_fff0u32))
    } else if (low >> 1u32) & 3u32 == 2u32 {
        if index + 1 < spec_bar_count() {
            Some(
                Bar::Memory64(
                    ((low & 0xffff_fff0u32) as u64) | ((regs[5 + index as int] as u64) << 32u64),
                ),
            )
        } else {
            None
        }
    } else {
        None
    }
}

/// Reads and decodes the BAR in the given slot of a register snapshot.
pub fn decode_bar(registers: &Registers, index: Index) -> (r: Option<Bar>)
    requires
        registers.wf(),
        index@ < spec_bar_count(),
    ensures
        r == spec_bar(registers@, index@),
{
    let slot = RegisterIndex::new(4 + index.as_usize()).unwrap();
    let low = registers.get(slot);
    if low & 1u32 == 1u32 {
        Some(Bar::Io(low & 0xffff_fffcu32))
    } else if (low >> 1u32) & 3u32 == 0u32 {
        Some(Bar::Memory32(low & 0xffff_fff0u32))
    } else if (low >> 1u32) & 3u32 == 2u32 {
        if index.as_usize() + 1 < 6 {
            let high_slot = RegisterIndex::new(5 + index.as_usize()).unwrap();
            let high = registers.get(high_slot);
            Some(Bar::Memory64(((low & 0xffff_fff0u32) as u64) | ((high as u64) << 32u64)))
        } else {
            None
        }
    } else {
        None
    }
}

} // verus!
