use iced_wgpu::buffer::Buffer;
use std::cell::Cell;

type Bytes24 = [u8; 24];

#[test]
fn new_allocates_requested_bytes() {
    let asked = Cell::new((0u64, 0u32));
    let buffer: Buffer<Bytes24, u64, u32> = Buffer::new(
        |bytes, usage| {
            asked.set((bytes, usage));
            bytes
        },
        10,
        7,
    );
    assert_eq!(asked.get(), (240, 7));
    assert_eq!(buffer.size(), 10);
    assert_eq!(*buffer.raw(), 240);
    assert_eq!(buffer.usage(), 7);
}

#[test]
fn ensure_capacity_grows_to_request() {
    let mut buffer: Buffer<u32, u64, u32> = Buffer::new(|bytes, _| bytes, 100, 1);
    let asked = Cell::new(0u64);
    buffer.ensure_capacity(
        |bytes, usage| {
            assert_eq!(usage, 1);
            asked.set(bytes);
            bytes
        },
        150,
    );
    assert_eq!(asked.get(), 600);
    assert_eq!(buffer.size(), 150);
    assert_eq!(*buffer.raw(), 600);
    assert_eq!(buffer.usage(), 1);
}

#[test]
fn growth_is_monotonic_and_idempotent() {
    let allocations = Cell::new(0u32);
    let allocate = |bytes: u64, _usage: u32| {
        allocations.set(allocations.get() + 1);
        bytes
    };
    let mut buffer: Buffer<u32, u64, u32> = Buffer::new(allocate, 10, 0);
    assert_eq!(allocations.get(), 1);

    let requests = [5usize, 20, 20, 15, 0, 30, 30, 25];
    let mut largest = 10usize;
    let mut expected_allocations = 1u32;
    for &n in requests.iter() {
        if n > largest {
            largest = n;
            expected_allocations += 1;
        }
        buffer.ensure_capacity(allocate, n);
        assert_eq!(buffer.size(), largest);
        assert_eq!(allocations.get(), expected_allocations);
    }
    assert_eq!(buffer.size(), 30);
    assert_eq!(allocations.get(), 3);
    assert_eq!(*buffer.raw(), 120);

    for &n in requests.iter() {
        buffer.ensure_capacity(allocate, n);
    }
    assert_eq!(buffer.size(), 30);
    assert_eq!(allocations.get(), 3);
}

#[test]
fn request_equal_to_capacity_keeps_buffer() {
    let mut buffer: Buffer<u32, u64, u32> = Buffer::new(|_, _| 1, 8, 0);
    buffer.ensure_capacity(|_, _| 2, 8);
    assert_eq!(*buffer.raw(), 1);
    assert_eq!(buffer.size(), 8);
    buffer.ensure_capacity(|_, _| 3, 9);
    assert_eq!(*buffer.raw(), 3);
    assert_eq!(buffer.size(), 9);
}
