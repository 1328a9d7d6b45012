//! The consumer side of a ring — the event ring — and the segment table
//! that tells hardware where its storage lives.
//!
//! Hardware is the producer here: a slot whose stored cycle bit equals
//! the ring's tracked bit is a new event software has not consumed yet.
//! Consuming advances the dequeue index; reaching the end wraps it to 0
//! and toggles the tracked bit. A single segment backs the whole ring:
//! multi-segment event rings are deliberately not modeled.

use vstd::prelude::*;
use crate::ring::{spec_trb_cycle, CycleBit, Ring, Trb};

verus! {

/// The mathematical state of a consumer ring.
pub struct EventRingView {
    pub slots: Seq<u128>,
    pub dequeue_index: nat,
    pub cycle: bool,
    pub base: u64,
}

impl EventRingView {
    pub open spec fn wf(self) -> bool {
        &&& self.slots.len() >= 1
        &&& self.dequeue_index < self.slots.len()
    }
}

/// The slot under the dequeue index holds an event software has not
/// consumed yet: its stored cycle bit equals the tracked one.
pub open spec fn spec_has_new_event(v: EventRingView) -> bool {
    spec_trb_cycle(v.slots[v.dequeue_index as int]) == v.cycle
}

/// One consumer step: the dequeue index advances; reaching the end wraps
/// it to 0 and toggles the tracked cycle bit. The slots are hardware's to
/// write and do not change.
pub open spec fn spec_increment(v: EventRingView) -> EventRingView {
    if v.dequeue_index + 1 >= v.slots.len() {
        EventRingView { slots: v.slots, dequeue_index: 0, cycle: !v.cycle, base: v.base }
    } else {
        EventRingView {
            slots: v.slots,
            dequeue_index: (v.dequeue_index + 1) as nat,
            cycle: v.cycle,
            base: v.base,
        }
    }
}

/// The state after `n` consumer steps.
pub open spec fn spec_increment_n(v: EventRingView, n: nat) -> EventRingView
    decreases n,
{
    if n == 0 {
        v
    } else {
        spec_increment_n(spec_increment(v), (n - 1) as nat)
    }
}

/// A consumer ring: the slot image, the dequeue index and the tracked
/// cycle bit.
#[derive(Debug)]
pub struct EventRing {
    ring: Ring,
    dequeue_index: usize,
    cycle_bit: CycleBit,
}

impl View for EventRing {
    type V = EventRingView;

    closed spec fn view(&self) -> EventRingView {
        EventRingView {
            slots: self.ring@,
            dequeue_index: self.dequeue_index as nat,
            cycle: self.cycle_bit@,
            base: self.ring.spec_base_addr(),
        }
    }
}

impl EventRing {
    pub open spec fn wf(&self) -> bool {
        self@.wf()
    }

    /// A fresh ring: zeroed slots, dequeue index 0, cycle bit true.
    pub fn new(len: usize, base_addr: u64) -> (r: Self)
        requires
            len >= 1,
        ensures
            r.wf(),
            r@.slots.len() == len,
            forall|i: int| 0 <= i < len ==> r@.slots[i] == 0u128,
            r@.dequeue_index == 0,
            r@.cycle == true,
            r@.base == base_addr,
    {
        Self { ring: Ring::new(len, base_addr), dequeue_index: 0, cycle_bit: CycleBit::new(true) }
    }

    pub fn len(&self) -> (r: usize)
        ensures
            r == self@.slots.len(),
    {
        self.ring.len()
    }

    /// The physical address of the single segment backing the ring.
    pub fn phys_addr(&self) -> (r: u64)
        ensures
            r == self@.base,
    {
        self.ring.phys_addr()
    }

    pub fn dequeue_index(&self) -> (r: usize)
        ensures
            r == self@.dequeue_index,
    {
        self.dequeue_index
    }

    pub fn cycle_bit(&self) -> (r: CycleBit)
        ensures
            r@ == self@.cycle,
    {
        self.cycle_bit
    }

    /// Records a descriptor hardware wrote into the shared storage, so
    /// the image matches memory.
    pub fn record_slot(&mut self, index: usize, trb: Trb)
        requires
            old(self).wf(),
            index < old(self)@.slots.len(),
        ensures
            final(self).wf(),
            final(self)@.slots == old(self)@.slots.update(index as int, trb@),
            final(self)@.dequeue_index == old(self)@.dequeue_index,
            final(self)@.cycle == old(self)@.cycle,
            final(self)@.base == old(self)@.base,
    {
        self.ring.set(index, trb);
    }

    /// Advances the dequeue index, exactly as `spec_increment` says.
    pub fn increment(&mut self)
        requires
            old(self).wf(),
        ensures
            final(self).wf(),
            final(self)@ == spec_increment(old(self)@),
    {
        let n = self.ring.len();
        self.dequeue_index = self.dequeue_index + 1;
        if self.dequeue_index >= n {
            self.dequeue_index = 0;
            self.cycle_bit.toggle();
        }
    }

    /// Consumes the event under the dequeue index if there is a new one:
    /// hands the descriptor back and advances; otherwise leaves the ring
    /// as it is.
    pub fn dequeue(&mut self) -> (r: Option<Trb>)
        requires
            old(self).wf(),
        ensures
            final(self).wf(),
            r is Some <==> spec_has_new_event(old(self)@),
            spec_has_new_event(old(self)@) ==> r->0@ == old(self)@.slots[old(
                self,
            )@.dequeue_index as int] && final(self)@ == spec_increment(old(self)@),
            !spec_has_new_event(old(self)@) ==> final(self)@ == old(self)@,
    {
        let trb = self.ring.get(self.dequeue_index);
        if trb.cycle_bit().value() == self.cycle_bit.value() {
            self.increment();
            Some(trb)
        } else {
            None
        }
    }
}

/// After `slots.len() - k` consumer steps from dequeue index `k`, the
/// index is back at 0 and the cycle bit has toggled.
pub proof fn lemma_consumer_drain(v: EventRingView)
    requires
        v.wf(),
    ensures
        spec_increment_n(v, (v.slots.len() - v.dequeue_index) as nat).wf(),
        spec_increment_n(v, (v.slots.len() - v.dequeue_index) as nat).dequeue_index == 0,
        spec_increment_n(v, (v.slots.len() - v.dequeue_index) as nat).cycle == !v.cycle,
        spec_increment_n(v, (v.slots.len() - v.dequeue_index) as nat).slots == v.slots,
        spec_increment_n(v, (v.slots.len() - v.dequeue_index) as nat).base == v.base,
    decreases v.slots.len() - v.dequeue_index,
{
    let v1 = spec_increment(v);
    if v.dequeue_index + 1 >= v.slots.len() {
        assert(spec_increment_n(v1, 0) == v1);
    } else {
        lemma_consumer_drain(v1);
    }
}

/// Consumer ring law: dequeuing all N slots of one lap — N consumer
/// steps from dequeue index 0 — returns the dequeue index to 0 with the
/// tracked cycle bit toggled exactly once.
pub proof fn lemma_consumer_lap(v: EventRingView)
    requires
        v.wf(),
        v.dequeue_index == 0,
    ensures
        spec_increment_n(v, v.slots.len()).dequeue_index == 0,
        spec_increment_n(v, v.slots.len()).cycle == !v.cycle,
        spec_increment_n(v, v.slots.len()).slots == v.slots,
{
    lemma_consumer_drain(v);
}

/// One entry of the event-ring segment table: where a segment lives and
/// how many descriptors it holds.
#[derive(Debug, Clone, Copy, PartialEq, Eq, Structural)]
pub struct SegmentTableEntry {
    pub base_address: u64,
    pub segment_size: u64,
}

/// The single-entry segment table describing the event ring's storage,
/// remembered together with its own physical address.
#[derive(Debug)]
pub struct SegmentTable {
    entry: SegmentTableEntry,
    base_addr: u64,
}

impl View for SegmentTable {
    type V = SegmentTableEntry;

    closed spec fn view(&self) -> SegmentTableEntry {
        self.entry
    }
}

impl SegmentTable {
    pub closed spec fn spec_base_addr(&self) -> u64 {
        self.base_addr
    }

    /// A zeroed single-entry table at `base_addr`.
    pub fn new(base_addr: u64) -> (r: Self)
        ensures
            r@.base_address == 0,
            r@.segment_size == 0,
            r.spec_base_addr() == base_addr,
    {
        Self { entry: SegmentTableEntry { base_address: 0, segment_size: 0 }, base_addr }
    }

    pub fn set_base_address(&mut self, addr: u64)
        ensures
            final(self)@.base_address == addr,
            final(self)@.segment_size == old(self)@.segment_size,
            final(self).spec_base_addr() == old(self).spec_base_addr(),
    {
        self.entry.base_address = addr;
    }

    pub fn set_segment_size(&mut self, size: u64)
        ensures
            final(self)@.segment_size == size,
            final(self)@.base_address == old(self)@.base_address,
            final(self).spec_base_addr() == old(self).spec_base_addr(),
    {
        self.entry.segment_size = size;
    }

    pub fn entry(&self) -> (r: SegmentTableEntry)
        ensures
            r == self@,
    {
        self.entry
    }

    /// The physical address of the table itself, programmed into ERSTBA.
    pub fn address(&self) -> (r: u64)
        ensures
            r == self.spec_base_addr(),
    {
        self.base_addr
    }
}

} // verus!
