use picogpu::opengl::dispose::DisposeOnDrop;
use picogpu::vulkan::errors::{error_from_vk, vulkan_error};
use picogpu::vulkan::memory::{fence_timeout, find_memorytype_index, memory_location, HostBufferDesc, MemoryLocation};
use picogpu::{BufferLayout, BufferRole, Error};
use std::cell::Cell;

#[test]
fn memory_type_selection() {
    let types = [0b001, 0b110, 0b111, 0b100];
    assert_eq!(find_memorytype_index(0b1111, &types, 0b110), Some(1));
    assert_eq!(find_memorytype_index(0b1101, &types, 0b110), Some(2));
    assert_eq!(find_memorytype_index(0b1111, &types, 0b1000), None);
    assert_eq!(find_memorytype_index(0, &types, 0), None);
    assert_eq!(find_memorytype_index(0b1000, &types, 0b100), Some(3));
    assert_eq!(find_memorytype_index(u32::MAX, &[], 0), None);
}

#[test]
fn memory_locations() {
    let layout = BufferLayout::new(BufferRole::Uniform, 16);
    assert_eq!(memory_location(&layout), MemoryLocation::DeviceLocal);
    assert_eq!(memory_location(&layout.with_can_upload()), MemoryLocation::HostCached);
    assert_eq!(memory_location(&layout.with_can_download()), MemoryLocation::HostCached);
}

#[test]
fn host_access_checks() {
    let buffer = HostBufferDesc { capacity: 64, can_upload: true, can_download: false };
    assert!(buffer.check_upload(0, 64).is_ok());
    assert!(buffer.check_upload(60, 4).is_ok());
    assert!(matches!(buffer.check_upload(61, 4), Err(Error::InvalidBounds)));
    assert!(matches!(buffer.check_upload(u64::MAX, 1), Err(Error::InvalidBounds)));
    assert!(matches!(buffer.check_download(0, 4), Err(Error::InvalidOperation)));
    assert!(matches!(buffer.check_download(100, 4), Err(Error::InvalidOperation)));
    let largest = HostBufferDesc { capacity: u64::MAX, can_upload: true, can_download: true };
    assert!(matches!(largest.check_upload(u64::MAX - 1, 4), Err(Error::InvalidBounds)));
    assert!(matches!(largest.check_download(u64::MAX - 1, 4), Err(Error::InvalidBounds)));
    assert!(largest.check_download(u64::MAX - 4, 4).is_ok());
}

#[test]
fn fence_timeouts() {
    assert_eq!(fence_timeout(0), 0);
    assert_eq!(fence_timeout(5_000), 5_000);
    assert_eq!(fence_timeout(u128::MAX), u64::MAX);
}

#[test]
fn dispose_on_drop_take_and_dispose() {
    let disposed = Cell::new(0);
    let held = DisposeOnDrop::new(7, |v: i32| disposed.set(v));
    assert_eq!(*held.get(), 7);
    assert_eq!(held.take(), 7);
    assert_eq!(disposed.get(), 0);
    let held = DisposeOnDrop::new(9, |v: i32| disposed.set(v));
    held.dispose();
    assert_eq!(disposed.get(), 9);
}

#[test]
fn vulkan_errors() {
    assert!(matches!(error_from_vk(-4, "lost".to_string()), Error::InvalidContext));
    assert!(matches!(error_from_vk(-2, "memory".to_string()), Error::Internal(m) if m == "memory"));
    assert!(matches!(vulkan_error(-4), Error::InvalidContext));
    assert!(matches!(vulkan_error(-2), Error::Internal(m) if m == "A device memory allocation has failed"));
    assert!(matches!(vulkan_error(2), Error::Internal(m) if m == "A wait operation has not completed in the specified time"));
}
