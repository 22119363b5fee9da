use render_core::allocator::{AllocKind, BufferUsage, GpuAllocator, Residency};
use render_core::errors::AllocError;

#[test]
fn map_write_round_trip_returns_identical_bytes() {
    let mut a = GpuAllocator::new(1024);
    let id = a
        .allocate(8, AllocKind::Buffer(BufferUsage::Vertex), Residency::HostVisible)
        .unwrap();
    let pattern = vec![0xde, 0xad, 0xbe, 0xef, 0x01, 0x02, 0x03, 0x04];
    a.map_write(id, &pattern);
    assert_eq!(a.read_back(id), pattern);
}

#[test]
fn map_write_overwrites_previous_contents() {
    let mut a = GpuAllocator::new(64);
    let id = a
        .allocate(4, AllocKind::Buffer(BufferUsage::Index), Residency::HostVisible)
        .unwrap();
    a.map_write(id, &vec![1, 2, 3, 4]);
    a.map_write(id, &vec![9, 8, 7, 6]);
    assert_eq!(a.read_back(id), vec![9, 8, 7, 6]);
}

#[test]
fn allocate_fails_exactly_when_the_budget_is_exceeded() {
    let mut a = GpuAllocator::new(10);
    assert_eq!(
        a.allocate(16, AllocKind::Image, Residency::DeviceLocal),
        Err(AllocError::OutOfMemory)
    );
    // The failed request appended no record, so the next identity is 0.
    let id = a.allocate(10, AllocKind::Image, Residency::DeviceLocal).unwrap();
    assert_eq!(id, 0);
    assert_eq!(a.remaining(), 0);
    assert_eq!(
        a.allocate(1, AllocKind::Image, Residency::DeviceLocal),
        Err(AllocError::OutOfMemory)
    );
}

#[test]
fn release_returns_bytes_and_identities_are_never_reused() {
    let mut a = GpuAllocator::new(8);
    let first = a.allocate(8, AllocKind::Buffer(BufferUsage::Vertex), Residency::HostVisible)
        .unwrap();
    assert_eq!(first, 0);
    assert_eq!(a.remaining(), 0);
    a.release(first);
    assert_eq!(a.remaining(), 8);
    assert!(!a.is_live(first));
    let second = a.allocate(8, AllocKind::Buffer(BufferUsage::Vertex), Residency::HostVisible)
        .unwrap();
    // The freed identity is not handed out again.
    assert_eq!(second, 1);
    assert_eq!(a.allocation_count(), 2);
}

#[test]
fn all_released_tracks_live_allocations() {
    let mut a = GpuAllocator::new(100);
    assert!(a.all_released());
    let x = a.allocate(10, AllocKind::Image, Residency::DeviceLocal).unwrap();
    let y = a.allocate(20, AllocKind::Buffer(BufferUsage::Index), Residency::HostVisible)
        .unwrap();
    assert!(!a.all_released());
    a.release(x);
    assert!(!a.all_released());
    a.release(y);
    assert!(a.all_released());
    assert_eq!(a.remaining(), 100);
}

#[test]
fn failed_allocation_leaves_the_allocator_unchanged() {
    let mut a = GpuAllocator::new(4);
    let _ = a.allocate(3, AllocKind::Image, Residency::DeviceLocal).unwrap();
    assert_eq!(
        a.allocate(2, AllocKind::Image, Residency::DeviceLocal),
        Err(AllocError::OutOfMemory)
    );
    assert_eq!(a.allocation_count(), 1);
    assert_eq!(a.remaining(), 1);
}
