//! Raw TRB storage: the fixed-size descriptors all xHCI rings are made
//! of, and the contiguous slot array one ring occupies.
//!
//! A TRB is 128 bits; its cycle bit (bit 96, bit 0 of the fourth dword)
//! is the only handshake between hardware and software over the shared
//! ring memory. The slot array here is the software image of one
//! DMA allocation, remembered together with its physical base address.

use vstd::prelude::*;

verus! {

/// A ring's tracked cycle state, toggled at every wraparound.
#[derive(Debug, Clone, Copy, PartialEq, Eq, Structural)]
pub struct CycleBit(bool);

impl View for CycleBit {
    type V = bool;

    closed spec fn view(&self) -> bool {
        self.0
    }
}

impl CycleBit {
    pub fn new(val: bool) -> (r: Self)
        ensures
            r@ == val,
    {
        Self(val)
    }

    pub fn toggle(&mut self)
        ensures
            final(self)@ == !old(self)@,
    {
        self.0 = !self.0;
    }

    pub fn value(self) -> (r: bool)
        ensures
            r == self@,
    {
        self.0
    }
}

/// The cycle bit stored in a TRB value.
pub open spec fn spec_trb_cycle(v: u128) -> bool {
    (v >> 96u128) & 1u128 == 1u128
}

/// The TRB value with its cycle bit forced to `c`.
pub open spec fn spec_with_cycle(v: u128, c: bool) -> u128 {
    if c {
        v | (1u128 << 96u128)
    } else {
        v & !(1u128 << 96u128)
    }
}

/// A Link TRB (type 6) pointing back at `base`, its toggle-cycle flag
/// set, carrying cycle bit `c`: what a producer plants in the last slot
/// so hardware follows the wraparound.
pub open spec fn spec_link_trb(base: u64, c: bool) -> u128 {
    ((base as u128) & !0xfu128) | (6u128 << 106u128) | (1u128 << 97u128) | (
    if c {
        1u128 << 96u128
    } else {
        0u128
    })
}

/// A No Op Command TRB (type 23) with a clear cycle bit; the cycle bit is
/// assigned at enqueue time.
pub open spec fn spec_noop_trb() -> u128 {
    23u128 << 106u128
}

/// One Transfer Request Block.
#[derive(Debug, Clone, Copy, PartialEq, Eq, Structural)]
pub struct Trb(u128);

impl View for Trb {
    type V = u128;

    closed spec fn view(&self) -> u128 {
        self.0
    }
}

impl Trb {
    pub fn new(value: u128) -> (r: Self)
        ensures
            r@ == value,
    {
        Self(value)
    }

    pub fn value(self) -> (r: u128)
        ensures
            r == self@,
    {
        self.0
    }

    /// The cycle bit stored in this descriptor.
    pub fn cycle_bit(self) -> (r: CycleBit)
        ensures
            r@ == spec_trb_cycle(self@),
    {
        CycleBit::new((self.0 >> 96u128) & 1u128 == 1u128)
    }

    /// This descriptor with its cycle bit forced to `c`.
    pub fn with_cycle_bit(self, c: CycleBit) -> (r: Self)
        ensures
            r@ == spec_with_cycle(self@, c@),
    {
        if c.value() {
            Self(self.0 | (1u128 << 96u128))
        } else {
            Self(self.0 & !(1u128 << 96u128))
        }
    }

    /// A Link TRB pointing back at `base` with cycle bit `c`.
    pub fn link(base: u64, c: CycleBit) -> (r: Self)
        ensures
            r@ == spec_link_trb(base, c@),
    {
        let cycle: u128 = if c.value() {
            1u128 << 96u128
        } else {
            0u128
        };
        Self(((base as u128) & !0xfu128) | (6u128 << 106u128) | (1u128 << 97u128) | cycle)
    }

    /// A No Op Command TRB.
    pub fn noop() -> (r: Self)
        ensures
            r@ == spec_noop_trb(),
    {
        Self(23u128 << 106u128)
    }
}

/// One contiguous slot array: the software image of the DMA allocation a
/// ring lives in, with its address-stable physical base.
#[derive(Debug)]
pub struct Ring {
    trbs: Vec<Trb>,
    base_addr: u64,
}

impl View for Ring {
    type V = Seq<u128>;

    closed spec fn view(&self) -> Seq<u128> {
        self.trbs@.map_values(|t: Trb| t@)
    }
}

impl Ring {
    pub closed spec fn spec_base_addr(&self) -> u64 {
        self.base_addr
    }

    /// A zeroed slot array of `num_trb` descriptors based at `base_addr`.
    pub fn new(num_trb: usize, base_addr: u64) -> (r: Self)
        ensures
            r@.len() == num_trb,
            forall|i: int| 0 <= i < num_trb ==> r@[i] == 0u128,
            r.spec_base_addr() == base_addr,
    {
        let mut trbs: Vec<Trb> = Vec::new();
        let mut i: usize = 0;
        while i < num_trb
            invariant
                i <= num_trb,
                trbs@.len() == i,
                forall|k: int| 0 <= k < i ==> (#[trigger] trbs@[k])@ == 0u128,
            decreases num_trb - i,
        {
            trbs.push(Trb::new(0));
            i = i + 1;
        }
        Self { trbs, base_addr }
    }

    pub fn len(&self) -> (r: usize)
        ensures
            r == self@.len(),
    {
        self.trbs.len()
    }

    /// The physical base address hardware is pointed at.
    pub fn phys_addr(&self) -> (r: u64)
        ensures
            r == self.spec_base_addr(),
    {
        self.base_addr
    }

    pub fn get(&self, index: usize) -> (r: Trb)
        requires
            index < self@.len(),
        ensures
            r@ == self@[index as int],
    {
        self.trbs[index]
    }

    pub fn set(&mut self, index: usize, trb: Trb)
        requires
            index < old(self)@.len(),
        ensures
            final(self)@ == old(self)@.update(index as int, trb@),
            final(self).spec_base_addr() == old(self).spec_base_addr(),
    {
        self.trbs.set(index, trb);
    }
}

} // verus!
