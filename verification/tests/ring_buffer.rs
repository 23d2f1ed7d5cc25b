use rs_trade_processor::ring_buffer::{RingBuffer, BUFFER_SIZE};

#[test]
fn new_buffer_is_empty_and_has_room() {
    let mut buffer: RingBuffer<u64> = RingBuffer::new(4, 0);
    assert_eq!(buffer.capacity(), 4);
    assert_eq!(buffer.write_position(), 0);
    assert_eq!(buffer.read_position(), 0);
    assert_eq!(buffer.outstanding(), 0);
    assert!(buffer.is_empty());
    assert!(!buffer.is_full());
    assert!(buffer.has_room());
    assert_eq!(buffer.try_read(), None);
    assert_eq!(buffer.read_position(), 0);
}

#[test]
fn reference_capacity_is_1024() {
    assert_eq!(BUFFER_SIZE, 1024);
}

#[test]
fn values_come_out_in_the_order_they_went_in() {
    let mut buffer: RingBuffer<u64> = RingBuffer::new(8, 0);
    assert!(buffer.try_write(11));
    assert!(buffer.try_write(22));
    assert!(buffer.try_write(33));
    assert_eq!(buffer.outstanding(), 3);
    assert_eq!(buffer.try_read(), Some(11));
    assert_eq!(buffer.try_read(), Some(22));
    assert_eq!(buffer.try_read(), Some(33));
    assert_eq!(buffer.try_read(), None);
    assert_eq!(buffer.write_position(), 3);
    assert_eq!(buffer.read_position(), 3);
}

#[test]
fn writing_exactly_capacity_values_fills_the_buffer() {
    let mut buffer: RingBuffer<u64> = RingBuffer::new(4, 0);
    for value in 1..=4u64 {
        assert!(buffer.has_room());
        assert!(buffer.try_write(value));
    }
    assert_eq!(buffer.write_position() - buffer.read_position(), 4);
    assert!(buffer.is_full());
    assert!(!buffer.has_room());
    assert_eq!(buffer.outstanding(), 4);
}

#[test]
fn a_write_into_a_full_buffer_is_rejected_and_corrupts_nothing() {
    let mut buffer: RingBuffer<u64> = RingBuffer::new(4, 0);
    for value in 1..=4u64 {
        assert!(buffer.try_write(value * 100));
    }
    assert!(!buffer.try_write(999));
    assert!(!buffer.try_write(998));
    assert_eq!(buffer.write_position(), 4);
    assert_eq!(buffer.read_position(), 0);
    assert_eq!(buffer.try_read(), Some(100));
    assert_eq!(buffer.try_read(), Some(200));
    assert_eq!(buffer.try_read(), Some(300));
    assert_eq!(buffer.try_read(), Some(400));
    assert_eq!(buffer.try_read(), None);
}

#[test]
fn reference_capacity_fills_after_1024_writes() {
    let mut buffer: RingBuffer<u64> = RingBuffer::new(BUFFER_SIZE, 0);
    for value in 0..1024u64 {
        assert!(buffer.try_write(value));
    }
    assert_eq!(buffer.write_position() - buffer.read_position(), 1024);
    assert!(buffer.is_full());
    assert!(!buffer.try_write(1024));
    assert_eq!(buffer.try_read(), Some(0));
    assert!(buffer.try_write(1024));
    assert!(buffer.is_full());
}

#[test]
fn a_read_frees_exactly_one_slot() {
    let mut buffer: RingBuffer<u64> = RingBuffer::new(2, 0);
    assert!(buffer.try_write(1));
    assert!(buffer.try_write(2));
    assert!(!buffer.try_write(3));
    assert_eq!(buffer.try_read(), Some(1));
    assert!(buffer.try_write(3));
    assert!(!buffer.try_write(4));
    assert_eq!(buffer.try_read(), Some(2));
    assert_eq!(buffer.try_read(), Some(3));
    assert_eq!(buffer.try_read(), None);
}

#[test]
fn cursors_grow_without_wrapping_while_slots_wrap() {
    let mut buffer: RingBuffer<u64> = RingBuffer::new(3, 0);
    for value in 0..10u64 {
        assert_eq!(buffer.write_position(), value as usize);
        assert_eq!(buffer.slot_index(buffer.write_position()), (value % 3) as usize);
        assert!(buffer.try_write(value));
        assert_eq!(buffer.try_read(), Some(value));
        assert_eq!(buffer.read_position(), value as usize + 1);
    }
    assert_eq!(buffer.write_position(), 10);
    assert_eq!(buffer.read_position(), 10);
    assert!(buffer.is_empty());
}

#[test]
fn slot_index_is_cursor_modulo_capacity() {
    let buffer: RingBuffer<u64> = RingBuffer::new(4, 0);
    assert_eq!(buffer.slot_index(0), 0);
    assert_eq!(buffer.slot_index(3), 3);
    assert_eq!(buffer.slot_index(4), 0);
    assert_eq!(buffer.slot_index(5), 1);
    assert_eq!(buffer.slot_index(1027), 3);
}

#[test]
fn a_staged_value_is_invisible_until_published() {
    let mut buffer: RingBuffer<u64> = RingBuffer::new(4, 0);
    let slot = buffer.slot_index(buffer.write_position());
    buffer.write_slot(slot, 77);
    assert_eq!(buffer.write_position(), 0);
    assert!(buffer.is_empty());
    assert_eq!(buffer.try_read(), None);
    buffer.publish();
    assert_eq!(buffer.write_position(), 1);
    assert_eq!(buffer.outstanding(), 1);
    assert_eq!(buffer.try_read(), Some(77));
}

#[test]
fn a_staged_value_can_be_overwritten_before_publication() {
    let mut buffer: RingBuffer<u64> = RingBuffer::new(4, 0);
    buffer.write_slot(0, 1);
    buffer.write_slot(0, 2);
    buffer.publish();
    assert_eq!(buffer.try_read(), Some(2));
}

#[test]
fn several_slots_can_be_staged_before_they_are_published() {
    let mut buffer: RingBuffer<u64> = RingBuffer::new(4, 0);
    assert!(buffer.try_write(5));
    buffer.write_slot(1, 6);
    buffer.write_slot(2, 7);
    buffer.publish();
    buffer.publish();
    assert_eq!(buffer.outstanding(), 3);
    assert_eq!(buffer.try_read(), Some(5));
    assert_eq!(buffer.try_read(), Some(6));
    assert_eq!(buffer.try_read(), Some(7));
}

#[test]
fn publishing_an_unwritten_slot_hands_out_the_fill_value() {
    let mut buffer: RingBuffer<u64> = RingBuffer::new(2, 42);
    buffer.publish();
    assert_eq!(buffer.try_read(), Some(42));
}

#[test]
fn a_buffer_of_one_slot_alternates_between_full_and_empty() {
    let mut buffer: RingBuffer<u64> = RingBuffer::new(1, 0);
    for value in 0..5u64 {
        assert!(buffer.is_empty());
        assert!(buffer.try_write(value));
        assert!(buffer.is_full());
        assert!(!buffer.try_write(value + 100));
        assert_eq!(buffer.try_read(), Some(value));
    }
}

#[test]
fn three_buffers_each_deliver_ten_thousand_values_exactly_once() {
    let mut first: RingBuffer<u64> = RingBuffer::new(64, 0);
    let mut second: RingBuffer<u64> = RingBuffer::new(64, 0);
    let mut third: RingBuffer<u64> = RingBuffer::new(64, 0);
    let mut written = [0u64; 3];
    let mut read = [0u64; 3];
    let mut round = 0u64;
    while read[0] < 10_000 || read[1] < 10_000 || read[2] < 10_000 {
        round += 1;
        let burst = 1 + round % 7;
        for _ in 0..burst {
            if written[0] < 10_000 && first.try_write(written[0]) {
                written[0] += 1;
            }
            if written[1] < 10_000 && second.try_write(written[1] * 3) {
                written[1] += 1;
            }
            if written[2] < 10_000 && third.try_write(written[2] * 5 + 1) {
                written[2] += 1;
            }
        }
        let drain = 1 + round % 5;
        for _ in 0..drain {
            if let Some(value) = first.try_read() {
                assert_eq!(value, read[0]);
                read[0] += 1;
            }
            if let Some(value) = second.try_read() {
                assert_eq!(value, read[1] * 3);
                read[1] += 1;
            }
            if let Some(value) = third.try_read() {
                assert_eq!(value, read[2] * 5 + 1);
                read[2] += 1;
            }
        }
    }
    assert_eq!(read, [10_000, 10_000, 10_000]);
    assert_eq!(first.write_position(), 10_000);
    assert_eq!(second.read_position(), 10_000);
    assert!(third.is_empty());
}
