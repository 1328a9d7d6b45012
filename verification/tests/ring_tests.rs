use xhci_core::command_ring::RingQueue;
use xhci_core::event_ring::{EventRing, SegmentTable};
use xhci_core::ring::{CycleBit, Ring, Trb};

#[test]
fn cycle_bit_toggles() {
    let mut bit = CycleBit::new(true);
    assert!(bit.value());
    bit.toggle();
    assert!(!bit.value());
    bit.toggle();
    assert!(bit.value());
}

#[test]
fn trb_cycle_bit_is_bit_96() {
    assert!(!Trb::new(0).cycle_bit().value());
    assert!(Trb::new(1u128 << 96).cycle_bit().value());
    assert!(!Trb::new(u128::MAX & !(1u128 << 96)).cycle_bit().value());

    let set = Trb::new(0).with_cycle_bit(CycleBit::new(true));
    assert_eq!(set.value(), 1u128 << 96);
    let cleared = Trb::new(u128::MAX).with_cycle_bit(CycleBit::new(false));
    assert_eq!(cleared.value(), u128::MAX & !(1u128 << 96));
}

#[test]
fn raw_ring_starts_zeroed_at_its_base() {
    let ring = Ring::new(8, 0x1000);
    assert_eq!(ring.len(), 8);
    assert_eq!(ring.phys_addr(), 0x1000);
    for i in 0..8 {
        assert_eq!(ring.get(i).value(), 0);
    }
}

#[test]
fn producer_lap_wraps_and_flips_the_cycle_bit() {
    // Capacity 4, starting cycle bit true: three enqueues fill the lap.
    let mut queue = RingQueue::new(4, 0x2000);
    assert!(queue.cycle_bit().value());
    assert_eq!(queue.enqueue_index(), 0);

    queue.enqueue(Trb::noop());
    assert_eq!(queue.enqueue_index(), 1);
    assert!(queue.cycle_bit().value());
    queue.enqueue(Trb::noop());
    assert_eq!(queue.enqueue_index(), 2);

    // The third enqueue reaches the last usable slot: the Link TRB is
    // planted, the index wraps, the tracked bit flips to false.
    queue.enqueue(Trb::noop());
    assert_eq!(queue.enqueue_index(), 0);
    assert!(!queue.cycle_bit().value());

    // Slots 0..3 were written with cycle bit true.
    for i in 0..3 {
        assert!(queue.get(i).cycle_bit().value());
    }
    // The last slot holds the Link TRB: type 6, toggle-cycle, pointing at
    // the base, carrying the lap's cycle bit.
    let link = queue.get(3).value();
    assert_eq!(link, 0x2000u128 | (6u128 << 106) | (1u128 << 97) | (1u128 << 96));

    // The next real enqueue is written with cycle bit false.
    queue.enqueue(Trb::noop());
    assert!(!queue.get(0).cycle_bit().value());
}

#[test]
fn consumer_lap_returns_to_zero_with_one_toggle() {
    let mut ring = EventRing::new(4, 0x3000);
    assert!(ring.cycle_bit().value());
    for expected in 1..4 {
        ring.increment();
        assert_eq!(ring.dequeue_index(), expected);
        assert!(ring.cycle_bit().value());
    }
    ring.increment();
    assert_eq!(ring.dequeue_index(), 0);
    assert!(!ring.cycle_bit().value());
}

#[test]
fn dequeue_consumes_only_slots_with_the_tracked_cycle_bit() {
    let mut ring = EventRing::new(4, 0x3000);
    // A fresh ring is all zeros: stored cycle bits are 0, the tracked bit
    // is 1, so nothing is new.
    assert!(ring.dequeue().is_none());
    assert_eq!(ring.dequeue_index(), 0);

    // Hardware writes an event with the matching cycle bit.
    ring.record_slot(0, Trb::new(0xabcd).with_cycle_bit(CycleBit::new(true)));
    let event = ring.dequeue().unwrap();
    assert_eq!(event.value(), 0xabcd | (1u128 << 96));
    assert_eq!(ring.dequeue_index(), 1);

    // The next slot still carries the old bit.
    assert!(ring.dequeue().is_none());
}

#[test]
fn segment_table_records_base_and_size() {
    let mut table = SegmentTable::new(0x4000);
    assert_eq!(table.address(), 0x4000);
    assert_eq!(table.entry().base_address, 0);
    assert_eq!(table.entry().segment_size, 0);
    table.set_base_address(0x3000);
    table.set_segment_size(16);
    assert_eq!(table.entry().base_address, 0x3000);
    assert_eq!(table.entry().segment_size, 16);
}
