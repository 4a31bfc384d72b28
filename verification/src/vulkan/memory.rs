use vstd::prelude::*;
use crate::buffer::BufferLayout;
use crate::error::Error;

verus! {

/// Memory type `index` is allowed by the `type_bits` of a resource and has every
/// property of `wanted`.
pub open spec fn memory_type_fits(type_bits: u32, properties: u32, wanted: u32, index: u32) -> bool {
    (1u32 << index) & type_bits != 0 && properties & wanted == wanted
}

/// The first memory type, in index order, that the resource allows and that has every
/// property of `wanted`, or `None` when there is none.
pub open spec fn spec_find_memory_type(type_bits: u32, memory_types: Seq<u32>, wanted: u32) -> Option<u32> {
    if exists|i: int| 0 <= i < memory_types.len() && memory_type_fits(type_bits, memory_types[i], wanted, i as u32) {
        let i = choose|i: int|
            0 <= i < memory_types.len() && memory_type_fits(type_bits, memory_types[i], wanted, i as u32)
                && forall|j: int| 0 <= j < i ==> !memory_type_fits(type_bits, memory_types[j], wanted, j as u32);
        Some(i as u32)
    } else {
        None
    }
}

/// Finds the first memory type that a resource with `type_bits` allows and that has all
/// the properties of `wanted`; `memory_types` holds the property flags of each memory
/// type of the device, in index order.
pub fn find_memorytype_index(type_bits: u32, memory_types: &[u32], wanted: u32) -> (r: Option<u32>)
    requires
        memory_types@.len() <= 32,
    ensures
        match r {
            Some(i) => i < memory_types@.len() && memory_type_fits(type_bits, memory_types@[i as int], wanted, i)
                && forall|j: int| 0 <= j < i ==> !memory_type_fits(type_bits, memory_types@[j], wanted, j as u32),
            None => forall|j: int| 0 <= j < memory_types@.len() ==> !memory_type_fits(type_bits, memory_types@[j], wanted, j as u32),
        },
        r == spec_find_memory_type(type_bits, memory_types@, wanted),
{
    let mut index: usize = 0;
    while index < memory_types.len()
        invariant
            index <= memory_types@.len() <= 32,
            forall|j: int| 0 <= j < index ==> !memory_type_fits(type_bits, memory_types@[j], wanted, j as u32),
        decreases memory_types@.len() - index,
    {
        let i = index as u32;
        if (1u32 << i) & type_bits != 0 && memory_types[index] & wanted == wanted {
            proof {
                assert(memory_type_fits(type_bits, memory_types@[index as int], wanted, index as u32));
                let c = choose|c: int|
                    0 <= c < memory_types@.len() && memory_type_fits(type_bits, memory_types@[c], wanted, c as u32)
                        && forall|j: int| 0 <= j < c ==> !memory_type_fits(type_bits, memory_types@[j], wanted, j as u32);
                assert(c == index as int) by {
                    if c < index as int {
                    } else if c > index as int {
                        assert(!memory_type_fits(type_bits, memory_types@[index as int], wanted, index as u32));
                    }
                }
            }
            return Some(i);
        }
        index = index + 1;
    }
    None
}

/// Where the memory of a buffer lives.
#[derive(Debug, Clone, Copy, PartialEq, Eq, Structural)]
pub enum MemoryLocation {
    /// Host-visible, cached memory that the CPU maps.
    HostCached,
    /// Device-local memory.
    DeviceLocal,
}

/// The memory of a buffer that is uploaded to or downloaded from is mapped by the host;
/// any other buffer lives in device-local memory.
pub fn memory_location(layout: &BufferLayout) -> (r: MemoryLocation)
    ensures
        r == (if layout.can_upload || layout.can_download {
            MemoryLocation::HostCached
        } else {
            MemoryLocation::DeviceLocal
        }),
{
    if layout.can_upload || layout.can_download {
        MemoryLocation::HostCached
    } else {
        MemoryLocation::DeviceLocal
    }
}

/// The attributes of a host-mapped buffer that its accesses are checked against.
#[derive(Debug, Clone, Copy, PartialEq, Eq, Structural)]
pub struct HostBufferDesc {
    /// The capacity in bytes.
    pub capacity: u64,
    /// Whether the buffer can be updated from the CPU.
    pub can_upload: bool,
    /// Whether the buffer can be read back.
    pub can_download: bool,
}

/// The outcome of a host access of `len` bytes at `offset`: `InvalidOperation` when the
/// buffer does not allow the access, then `InvalidBounds` when the region ends past the
/// capacity.
pub open spec fn spec_check_host_access(allowed: bool, capacity: u64, offset: u64, len: usize) -> Result<(), Error> {
    if !allowed {
        Err(Error::InvalidOperation)
    } else if offset + len > capacity {
        Err(Error::InvalidBounds)
    } else {
        Ok(())
    }
}

fn check_host_access(allowed: bool, capacity: u64, offset: u64, len: usize) -> (r: Result<(), Error>)
    ensures
        r == spec_check_host_access(allowed, capacity, offset, len),
{
    if !allowed {
        return Err(Error::InvalidOperation);
    }
    if offset as u128 + len as u128 > capacity as u128 {
        return Err(Error::InvalidBounds);
    }
    Ok(())
}

impl HostBufferDesc {
    /// Checks an upload of `len` bytes at `offset`.
    pub fn check_upload(&self, offset: u64, len: usize) -> (r: Result<(), Error>)
        ensures
            r == spec_check_host_access(self.can_upload, self.capacity, offset, len),
    {
        check_host_access(self.can_upload, self.capacity, offset, len)
    }

    /// Checks a download of `len` bytes from `offset`.
    pub fn check_download(&self, offset: u64, len: usize) -> (r: Result<(), Error>)
        ensures
            r == spec_check_host_access(self.can_download, self.capacity, offset, len),
    {
        check_host_access(self.can_download, self.capacity, offset, len)
    }
}

/// How long to wait for a fence, in nanoseconds: the timeout, clamped to `u64::MAX`.
pub fn fence_timeout(timeout_nanos: u128) -> (r: u64)
    ensures
        r == (if timeout_nanos > u64::MAX { u64::MAX as int } else { timeout_nanos as int }),
{
    if timeout_nanos > u64::MAX as u128 {
        u64::MAX
    } else {
        timeout_nanos as u64
    }
}


/// Law: memory type `index` (one of the 32 that Vulkan allows) fits a resource exactly
/// when bit `index` of the resource's type bits is set and the type has every wanted
/// property.
pub proof fn law_memory_type_fits_bits(type_bits: u32, properties: u32, wanted: u32, index: u32)
    requires
        index < 32,
    ensures
        memory_type_fits(type_bits, properties, wanted, index) == ((type_bits >> index) & 1u32 == 1u32
            && properties & wanted == wanted),
{
    assert(((1u32 << index) & type_bits != 0) == ((type_bits >> index) & 1u32 == 1u32)) by (bit_vector)
        requires
            index < 32,
    ;
}

/// Law: a host access is allowed exactly when the buffer allows that direction and the
/// region lies within its capacity; a direction that the buffer does not allow is refused
/// first.
pub proof fn law_host_access(allowed: bool, capacity: u64, offset: u64, len: usize)
    ensures
        !allowed ==> spec_check_host_access(allowed, capacity, offset, len) == Err::<(), Error>(
            Error::InvalidOperation,
        ),
        allowed && offset + len <= capacity ==> spec_check_host_access(allowed, capacity, offset, len) == Ok::<
            (),
            Error,
        >(()),
        allowed && offset + len > capacity ==> spec_check_host_access(allowed, capacity, offset, len) == Err::<
            (),
            Error,
        >(Error::InvalidBounds),
{
}

} // verus!
