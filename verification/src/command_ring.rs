//! The producer side of a ring: command and transfer rings.
//!
//! Software owns the enqueue index and a tracked cycle bit. Every
//! descriptor is written with the tracked bit; when the write fills the
//! slot before the last one, the last slot gets a Link TRB pointing back
//! at the base, the index wraps to 0, and the tracked bit toggles. The
//! toggle is hardware's only wraparound signal, since it has no length
//! counter for the ring.

use vstd::prelude::*;
use crate::ring::{
    spec_link_trb, spec_with_cycle, CycleBit, Ring, Trb,
};

verus! {

/// The mathematical state of a producer ring.
pub struct RingQueueView {
    pub slots: Seq<u128>,
    pub enqueue_index: nat,
    pub cycle: bool,
    pub base: u64,
}

impl RingQueueView {
    pub open spec fn wf(self) -> bool {
        &&& self.slots.len() >= 2
        &&& self.enqueue_index < self.slots.len() - 1
    }
}

/// One producer enqueue: the descriptor is written at the enqueue index
/// with the tracked cycle bit; if that filled the last usable slot, a
/// Link TRB carrying the same bit is planted in the final slot, the index
/// wraps to 0 and the tracked bit toggles.
pub open spec fn spec_enqueue(v: RingQueueView, t: u128) -> RingQueueView {
    let written = spec_with_cycle(t, v.cycle);
    let slots1 = v.slots.update(v.enqueue_index as int, written);
    let e1 = v.enqueue_index + 1;
    if e1 == v.slots.len() - 1 {
        RingQueueView {
            slots: slots1.update(e1 as int, spec_link_trb(v.base, v.cycle)),
            enqueue_index: 0,
            cycle: !v.cycle,
            base: v.base,
        }
    } else {
        RingQueueView { slots: slots1, enqueue_index: e1 as nat, cycle: v.cycle, base: v.base }
    }
}

/// The state after enqueuing every descriptor of `ts` in order.
pub open spec fn spec_enqueue_all(v: RingQueueView, ts: Seq<u128>) -> RingQueueView
    decreases ts.len(),
{
    if ts.len() == 0 {
        v
    } else {
        spec_enqueue_all(spec_enqueue(v, ts[0]), ts.drop_first())
    }
}

/// A producer ring: the slot image, the enqueue index and the tracked
/// cycle bit.
#[derive(Debug)]
pub struct RingQueue {
    ring: Ring,
    enqueue_index: usize,
    cycle_bit: CycleBit,
}

impl View for RingQueue {
    type V = RingQueueView;

    closed spec fn view(&self) -> RingQueueView {
        RingQueueView {
            slots: self.ring@,
            enqueue_index: self.enqueue_index as nat,
            cycle: self.cycle_bit@,
            base: self.ring.spec_base_addr(),
        }
    }
}

impl RingQueue {
    pub open spec fn wf(&self) -> bool {
        self@.wf()
    }

    /// A fresh ring: zeroed slots, enqueue index 0, cycle bit true.
    pub fn new(num_trb: usize, base_addr: u64) -> (r: Self)
        requires
            num_trb >= 2,
        ensures
            r.wf(),
            r@.slots.len() == num_trb,
            forall|i: int| 0 <= i < num_trb ==> r@.slots[i] == 0u128,
            r@.enqueue_index == 0,
            r@.cycle == true,
            r@.base == base_addr,
    {
        Self { ring: Ring::new(num_trb, base_addr), enqueue_index: 0, cycle_bit: CycleBit::new(true) }
    }

    pub fn len(&self) -> (r: usize)
        ensures
            r == self@.slots.len(),
    {
        self.ring.len()
    }

    /// The physical base address programmed into the command-ring control
    /// register.
    pub fn phys_addr(&self) -> (r: u64)
        ensures
            r == self@.base,
    {
        self.ring.phys_addr()
    }

    pub fn get(&self, index: usize) -> (r: Trb)
        requires
            index < self@.slots.len(),
        ensures
            r@ == self@.slots[index as int],
    {
        self.ring.get(index)
    }

    pub fn enqueue_index(&self) -> (r: usize)
        ensures
            r == self@.enqueue_index,
    {
        self.enqueue_index
    }

    pub fn cycle_bit(&self) -> (r: CycleBit)
        ensures
            r@ == self@.cycle,
    {
        self.cycle_bit
    }

    /// Enqueues one descriptor, exactly as `spec_enqueue` says.
    pub fn enqueue(&mut self, trb: Trb)
        requires
            old(self).wf(),
        ensures
            final(self).wf(),
            final(self)@ == spec_enqueue(old(self)@, trb@),
    {
        let n = self.ring.len();
        let written = trb.with_cycle_bit(self.cycle_bit);
        self.ring.set(self.enqueue_index, written);
        self.enqueue_index = self.enqueue_index + 1;
        if self.enqueue_index == n - 1 {
            let link = Trb::link(self.ring.phys_addr(), self.cycle_bit);
            self.ring.set(self.enqueue_index, link);
            self.enqueue_index = 0;
            self.cycle_bit.toggle();
        }
    }
}

/// After filling the rest of a lap — from enqueue index `k` with
/// `slots.len() - 1 - k` descriptors — the index is back at 0, the cycle
/// bit has toggled, and the last slot holds the Link TRB planted with the
/// lap's cycle bit.
pub proof fn lemma_producer_fill(v: RingQueueView, ts: Seq<u128>)
    requires
        v.wf(),
        v.enqueue_index + ts.len() == v.slots.len() - 1,
    ensures
        spec_enqueue_all(v, ts).wf(),
        spec_enqueue_all(v, ts).enqueue_index == 0,
        spec_enqueue_all(v, ts).cycle == !v.cycle,
        spec_enqueue_all(v, ts).slots.len() == v.slots.len(),
        spec_enqueue_all(v, ts).base == v.base,
        spec_enqueue_all(v, ts).slots.last() == spec_link_trb(v.base, v.cycle),
    decreases ts.len(),
{
    let v1 = spec_enqueue(v, ts[0]);
    if ts.len() == 1 {
        assert(spec_enqueue_all(v1, ts.drop_first()) == v1);
    } else {
        lemma_producer_fill(v1, ts.drop_first());
    }
}

/// Producer ring law: on a ring of capacity N that starts a lap at slot 0
/// with cycle bit true, enqueuing N−1 descriptors (the mandatory Link
/// TRB rides along with the last of them) wraps the enqueue index to 0
/// and flips the tracked cycle bit to false, and the next descriptor is
/// then written with cycle bit false.
pub proof fn lemma_producer_wraparound(v: RingQueueView, ts: Seq<u128>, next: u128)
    requires
        v.wf(),
        v.enqueue_index == 0,
        v.cycle == true,
        ts.len() == v.slots.len() - 1,
    ensures
        spec_enqueue_all(v, ts).enqueue_index == 0,
        spec_enqueue_all(v, ts).cycle == false,
        spec_enqueue_all(v, ts).slots.last() == spec_link_trb(v.base, true),
        spec_enqueue(spec_enqueue_all(v, ts), next).slots[0] == spec_with_cycle(next, false),
{
    lemma_producer_fill(v, ts);
}

} // verus!
