use riemann_egui_dash::buffer::{
    clamp_capacity, Capacity, EventBuffer, DEFAULT_CAPACITY, MAX_CAPACITY, MIN_CAPACITY,
};

#[test]
fn capacity_is_brought_into_range() {
    assert_eq!(clamp_capacity(0), MIN_CAPACITY);
    assert_eq!(clamp_capacity(9), 10);
    assert_eq!(clamp_capacity(10), 10);
    assert_eq!(clamp_capacity(1234), 1234);
    assert_eq!(clamp_capacity(10_000), 10_000);
    assert_eq!(clamp_capacity(10_001), MAX_CAPACITY);
    assert_eq!(clamp_capacity(usize::MAX), 10_000);
    assert_eq!(Capacity::nearest(3).get(), 10);
    assert_eq!(Capacity::nearest(500).get(), 500);
}

#[test]
fn a_new_buffer_is_empty_with_the_default_capacity() {
    let buffer: EventBuffer<u32> = EventBuffer::new();
    assert!(buffer.is_empty());
    assert_eq!(buffer.len(), 0);
    assert_eq!(buffer.capacity(), DEFAULT_CAPACITY);
    assert_eq!(buffer.capacity(), 1000);
    assert!(buffer.snapshot().is_empty());
}

#[test]
fn fifteen_events_into_ten_places_leave_the_last_ten() {
    let mut buffer: EventBuffer<u32> = EventBuffer::with_capacity(10);
    for number in 1..=15 {
        buffer.append(number);
    }
    assert_eq!(buffer.len(), 15);
    buffer.evict_to_capacity();
    assert_eq!(buffer.snapshot(), &vec![6, 7, 8, 9, 10, 11, 12, 13, 14, 15]);
    assert_eq!(buffer.len(), 10);
}

#[test]
fn eviction_leaves_a_buffer_that_fits_alone() {
    let mut buffer: EventBuffer<u32> = EventBuffer::with_capacity(10);
    for number in 1..=10 {
        buffer.append(number);
    }
    buffer.evict_to_capacity();
    assert_eq!(buffer.snapshot(), &vec![1, 2, 3, 4, 5, 6, 7, 8, 9, 10]);
    let mut empty: EventBuffer<u32> = EventBuffer::new();
    empty.evict_to_capacity();
    assert!(empty.is_empty());
}

#[test]
fn eviction_after_each_batch_keeps_the_newest_of_all() {
    let mut buffer: EventBuffer<u32> = EventBuffer::with_capacity(10);
    for number in 1..=8 {
        buffer.append(number);
    }
    buffer.evict_to_capacity();
    for number in 9..=12 {
        buffer.append(number);
    }
    buffer.evict_to_capacity();
    assert_eq!(buffer.snapshot(), &vec![3, 4, 5, 6, 7, 8, 9, 10, 11, 12]);
}

#[test]
fn a_smaller_capacity_takes_effect_at_the_next_eviction() {
    let mut buffer: EventBuffer<u32> = EventBuffer::with_capacity(20);
    for number in 1..=20 {
        buffer.append(number);
    }
    buffer.evict_to_capacity();
    assert_eq!(buffer.len(), 20);
    buffer.set_capacity(12);
    assert_eq!(buffer.capacity(), 12);
    assert_eq!(buffer.len(), 20);
    buffer.evict_to_capacity();
    assert_eq!(buffer.snapshot(), &vec![9, 10, 11, 12, 13, 14, 15, 16, 17, 18, 19, 20]);
    buffer.set_capacity(1);
    assert_eq!(buffer.capacity(), 10);
}

#[test]
fn clearing_keeps_the_capacity() {
    let mut buffer: EventBuffer<u32> = EventBuffer::with_capacity(25);
    buffer.append(1);
    buffer.clear();
    assert!(buffer.is_empty());
    assert_eq!(buffer.capacity(), 25);
}
