use vstd::prelude::*;

verus! {

/// The role of a buffer, which determines how it is expected to be used.
#[derive(Debug, Clone, Copy, PartialEq, Eq, Structural)]
pub enum BufferRole {
    /// A uniform buffer.
    Uniform,
    /// A storage buffer.
    Storage,
    /// A staging buffer: not bound in draw calls, but used as an intermediate for copies
    /// to and from the GPU.
    Staging,
}

/// The layout of a buffer, used for creating a buffer with the desired specifications.
///
/// A buffer is a contiguous region of GPU memory that holds arbitrary data read by a
/// pipeline or written by the CPU.
#[derive(Debug, Clone, Copy)]
pub struct BufferLayout {
    /// The role of the buffer.
    pub role: BufferRole,
    /// The capacity of the buffer in bytes.
    pub capacity: u64,
    /// Whether the buffer is expected to be read back from the GPU.
    pub can_download: bool,
    /// Whether the buffer is expected to be updated from the CPU.
    pub can_upload: bool,
}

impl BufferLayout {
    /// Creates a buffer layout with the given role and capacity, neither downloadable nor
    /// uploadable.
    pub fn new(role: BufferRole, capacity: u64) -> (r: Self)
        ensures
            r == (BufferLayout { role, capacity, can_download: false, can_upload: false }),
    {
        BufferLayout { role, capacity, can_download: false, can_upload: false }
    }

    /// Marks the buffer as downloadable; every other field is kept.
    pub fn with_can_download(self) -> (r: Self)
        ensures
            r == (BufferLayout { can_download: true, ..self }),
    {
        let mut s = self;
        s.can_download = true;
        s
    }

    /// Marks the buffer as uploadable; every other field is kept.
    pub fn with_can_upload(self) -> (r: Self)
        ensures
            r == (BufferLayout { can_upload: true, ..self }),
    {
        let mut s = self;
        s.can_upload = true;
        s
    }
}

} // verus!
