use rawvec::buffer::Buffer;
use rawvec::growth::grown_capacity;

#[test]
fn growth_starts_at_one_and_doubles() {
    assert_eq!(grown_capacity::<u64>(0), Some(1));
    assert_eq!(grown_capacity::<u64>(1), Some(2));
    assert_eq!(grown_capacity::<u64>(2), Some(4));
    assert_eq!(grown_capacity::<u64>(5), Some(10));
    assert_eq!(grown_capacity::<u8>(1024), Some(2048));
}

#[test]
fn growth_stops_at_the_signed_size_limit() {
    let limit: usize = isize::MAX as usize;
    // 2 * (limit / 16) * 8 bytes is within the limit, one slot more is not.
    assert_eq!(grown_capacity::<u64>(limit / 16), Some(2 * (limit / 16)));
    assert_eq!(grown_capacity::<u64>(limit / 16 + 1), None);
    assert_eq!(grown_capacity::<u8>(limit / 2), Some(limit - 1));
    assert_eq!(grown_capacity::<u8>(limit / 2 + 1), None);
    assert_eq!(grown_capacity::<u64>(usize::MAX), None);
}

#[test]
fn growth_counts_the_bytes_of_a_whole_slot() {
    let limit: usize = isize::MAX as usize;
    assert_eq!(std::mem::size_of::<Option<u64>>(), 16);
    assert_eq!(grown_capacity::<Option<u64>>(limit / 32), Some(2 * (limit / 32)));
    assert_eq!(grown_capacity::<Option<u64>>(limit / 32 + 1), None);
    assert_eq!(grown_capacity::<u64>(limit / 32 + 1), Some(2 * (limit / 32 + 1)));
}

#[test]
fn growth_of_zero_sized_slots_stops_at_the_count_limit() {
    assert_eq!(grown_capacity::<()>(usize::MAX / 2), Some(usize::MAX - 1));
    assert_eq!(grown_capacity::<()>(usize::MAX / 2 + 1), None);
}

#[test]
fn buffer_starts_without_slots() {
    let buffer: Buffer<i32> = Buffer::new();
    assert_eq!(buffer.capacity(), 0);
    assert!(buffer.can_grow());
}

#[test]
fn buffer_grows_by_doubling_and_keeps_its_slots() {
    let mut buffer: Buffer<i32> = Buffer::new();
    buffer.grow();
    assert_eq!(buffer.capacity(), 1);
    buffer.put(0, 7);
    buffer.grow();
    assert_eq!(buffer.capacity(), 2);
    buffer.put(1, 8);
    buffer.grow();
    assert_eq!(buffer.capacity(), 4);
    buffer.grow();
    assert_eq!(buffer.capacity(), 8);
    assert_eq!(*buffer.peek(0), 7);
    assert_eq!(*buffer.peek(1), 8);
}

#[test]
fn buffer_slots_are_written_and_taken() {
    let mut buffer: Buffer<String> = Buffer::new();
    buffer.grow();
    buffer.grow();
    buffer.put(1, String::from("one"));
    buffer.put(0, String::from("zero"));
    assert_eq!(buffer.peek(1), "one");
    assert_eq!(buffer.take(0), "zero");
    buffer.put(0, String::from("again"));
    assert_eq!(buffer.take(0), "again");
    assert_eq!(buffer.take(1), "one");
    assert_eq!(buffer.capacity(), 2);
}
