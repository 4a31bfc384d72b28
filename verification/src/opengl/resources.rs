use vstd::prelude::*;
use crate::buffer::{BufferLayout, BufferRole};
use crate::error::Error;
use crate::framebuffer::{DepthFormat, FramebufferAttachment, FramebufferLayout, StencilFormat};
use crate::opengl::features::Features;
use crate::ownership::check_owner;
use crate::texture::{TextureBounds, TextureFormat, TextureLayout};

verus! {

/// `n` is a multiple of `d`; only 0 is a multiple of 0.
pub open spec fn multiple_of(n: int, d: int) -> bool {
    if d == 0 {
        n == 0
    } else {
        n % d == 0
    }
}

/// Whether `n` is a multiple of `d` (only 0 is a multiple of 0).
pub fn is_multiple_of_u32(n: u32, d: u32) -> (r: bool)
    ensures
        r == multiple_of(n as int, d as int),
{
    if d == 0 {
        n == 0
    } else {
        n % d == 0
    }
}

/// Whether `n` is a multiple of `d` (only 0 is a multiple of 0).
pub fn is_multiple_of_u64(n: u64, d: u64) -> (r: bool)
    ensures
        r == multiple_of(n as int, d as int),
{
    if d == 0 {
        n == 0
    } else {
        n % d == 0
    }
}

/// The region of `size` bytes at `offset` ends within `capacity`.
pub open spec fn region_fits(offset: int, size: int, capacity: int) -> bool {
    offset + size <= capacity
}

/// The attributes of a created buffer that its operations are checked against.
#[derive(Debug, Clone, Copy, PartialEq, Eq, Structural)]
pub struct BufferDesc {
    /// The context that made the buffer.
    pub owner: u64,
    /// The name of the buffer object.
    pub id: u32,
    /// The role of the buffer.
    pub role: BufferRole,
    /// The capacity of the buffer in bytes.
    pub capacity: u32,
    /// Whether the buffer can be updated from the CPU.
    pub can_upload: bool,
    /// Whether the buffer can be read back.
    pub can_download: bool,
}

/// The attributes of a created texture that its operations are checked against.
#[derive(Debug, Clone, Copy, PartialEq, Eq, Structural)]
pub struct TextureDesc {
    /// The context that made the texture.
    pub owner: u64,
    /// The width in pixels.
    pub width: u32,
    /// The height in pixels.
    pub height: u32,
    /// The pixel format.
    pub format: TextureFormat,
}

/// A color attachment of a framebuffer.
#[derive(Debug, Clone, Copy, PartialEq, Eq, Structural)]
pub struct ColorAttachmentDesc {
    /// The pixel format.
    pub format: TextureFormat,
    /// The texture that stores the attachment, when it can be sampled.
    pub texture: Option<u32>,
}

/// The depth/stencil attachment of a framebuffer.
#[derive(Debug, Clone, Copy, PartialEq, Eq, Structural)]
pub struct DepthStencilDesc {
    /// The depth format, if the attachment holds depth.
    pub depth: Option<DepthFormat>,
    /// The stencil format, if the attachment holds stencil.
    pub stencil: Option<StencilFormat>,
    /// The texture that stores the attachment, when it can be sampled.
    pub texture: Option<u32>,
}

/// The attributes of a framebuffer that its operations are checked against.
#[derive(Debug, Clone)]
pub struct FramebufferDesc {
    /// The context that made the framebuffer (for the screen, the context itself).
    pub owner: u64,
    /// The name of the framebuffer object; `None` for the screen.
    pub id: Option<u32>,
    /// The width in pixels.
    pub width: u32,
    /// The height in pixels.
    pub height: u32,
    /// The color attachments, in attachment order.
    pub color: Vec<ColorAttachmentDesc>,
    /// The depth/stencil attachment.
    pub depth: Option<DepthStencilDesc>,
}

/// What a depth/stencil attachment of a new framebuffer holds.
#[derive(Debug, Clone, Copy, PartialEq, Eq, Structural)]
pub enum DepthStencilKind {
    /// Depth only.
    Depth,
    /// Stencil only.
    Stencil,
    /// Depth and stencil.
    DepthStencil,
}

/// Where an attachment of a new framebuffer is stored.
#[derive(Debug, Clone, Copy, PartialEq, Eq, Structural)]
pub enum AttachmentStorage {
    /// A texture, so that the attachment can be sampled.
    Texture,
    /// A single-sampled renderbuffer.
    Renderbuffer,
    /// A multisampled renderbuffer.
    MultisampleRenderbuffer,
}

/// The storage of an attachment: a texture when it must be sampled and is single-sampled
/// (a multisampled attachment cannot be a plain texture); otherwise a renderbuffer,
/// multisampled when samples are asked for.
pub open spec fn spec_attachment_storage(bindable: bool, samples: u32) -> AttachmentStorage {
    if bindable && samples == 0 {
        AttachmentStorage::Texture
    } else if samples > 0 {
        AttachmentStorage::MultisampleRenderbuffer
    } else {
        AttachmentStorage::Renderbuffer
    }
}

/// Decides the storage of an attachment of a new framebuffer.
pub fn attachment_storage(bindable: bool, samples: u32) -> (r: AttachmentStorage)
    ensures
        r == spec_attachment_storage(bindable, samples),
{
    if bindable && samples == 0 {
        AttachmentStorage::Texture
    } else if samples > 0 {
        AttachmentStorage::MultisampleRenderbuffer
    } else {
        AttachmentStorage::Renderbuffer
    }
}

/// How an upload writes to a buffer.
#[derive(Debug, Clone, Copy, PartialEq, Eq, Structural)]
pub enum UploadPlan {
    /// The data covers the whole buffer and replaces its storage.
    Replace,
    /// The data updates the buffer from the given offset.
    Update(u32),
}

/// A copy between two buffers, in `u32` offsets and size.
#[derive(Debug, Clone, Copy, PartialEq, Eq, Structural)]
pub struct CopyRegion {
    /// Offset into the destination.
    pub dst_offset: u32,
    /// Offset into the source.
    pub src_offset: u32,
    /// Number of bytes.
    pub size: u32,
}

/// Which attachment a framebuffer read comes from.
#[derive(Debug, Clone, Copy, PartialEq, Eq, Structural)]
pub enum ReadSource {
    /// The stencil values.
    Stencil,
    /// The depth values, read as 32-bit floats.
    Depth,
    /// The color attachment with the given index and format.
    Color(u8, TextureFormat),
}

/// A read of framebuffer pixels into a buffer.
#[derive(Debug, Clone, Copy, PartialEq, Eq, Structural)]
pub struct ReadbackPlan {
    /// The attachment to read.
    pub source: ReadSource,
    /// The offset into the destination buffer.
    pub offset: u32,
}

/// The larger of two `u32` values.
pub open spec fn max_u32(a: u32, b: u32) -> u32 {
    if a >= b {
        a
    } else {
        b
    }
}

/// The size in bytes of a `width` by `height` region of pixels of `pixel_size` bytes.
pub open spec fn region_size(bounds: TextureBounds, pixel_size: nat) -> int {
    bounds.width * bounds.height * pixel_size
}

/// The bounds lie within a `width` by `height` area.
pub open spec fn bounds_within(bounds: TextureBounds, width: u32, height: u32) -> bool {
    bounds.x + bounds.width <= width && bounds.y + bounds.height <= height
}

fn bounds_within_exec(bounds: TextureBounds, width: u32, height: u32) -> (r: bool)
    ensures
        r == bounds_within(bounds, width, height),
{
    bounds.x as u64 + bounds.width as u64 <= width as u64 && bounds.y as u64 + bounds.height as u64
        <= height as u64
}

/// The exact size in bytes of a region of pixels of `pixel_size` bytes each.
pub fn region_bytes(bounds: TextureBounds, pixel_size: u32) -> (r: u128)
    requires
        pixel_size <= 8,
    ensures
        r == region_size(bounds, pixel_size as nat),
        r <= 0x10_0000_0000_0000_0000,
{
    let w = bounds.width as u128;
    let h = bounds.height as u128;
    let p = pixel_size as u128;
    assert(w * h <= 0xffff_ffff * 0xffff_ffff) by (nonlinear_arith)
        requires
            w <= 0xffff_ffff,
            h <= 0xffff_ffff,
    ;
    let wh = w * h;
    assert(wh * p <= 0x10_0000_0000_0000_0000) by (nonlinear_arith)
        requires
            wh <= 0xffff_ffff * 0xffff_ffff,
            p <= 8,
    ;
    wh * p
}

/// `offset + size` fits the buffer and `offset` is aligned for the buffer's role.
pub open spec fn buffer_region_ok(features: Features, buffer: BufferDesc, offset: int, size: int) -> bool {
    region_fits(offset, size, buffer.capacity as int) && multiple_of(
        offset,
        features.spec_buffer_alignment(buffer.role) as int,
    )
}

fn region_fits_exec(offset: u32, size: u128, capacity: u32) -> (r: bool)
    requires
        size <= 0x10_0000_0000_0000_0000,
    ensures
        r == region_fits(offset as int, size as int, capacity as int),
{
    offset as u128 + size <= capacity as u128
}

impl Features {
    /// The outcome of creating a buffer with the given layout: the capacity as `u32`, or
    /// `UnsupportedFeature` when the role has no buffers, or `UnsupportedSize` when the
    /// capacity exceeds the `u32` range or the role's limit.
    pub open spec fn spec_check_buffer(self, layout: BufferLayout) -> Result<u32, Error> {
        let max = self.spec_max_buffer_size(layout.role);
        if max == 0 {
            Err(Error::UnsupportedFeature)
        } else if layout.capacity > u32::MAX || layout.capacity > max {
            Err(Error::UnsupportedSize)
        } else {
            Ok(layout.capacity as u32)
        }
    }

    /// Checks that a buffer with the given layout can be created, and returns its capacity.
    pub fn check_buffer(&self, layout: BufferLayout) -> (r: Result<u32, Error>)
        ensures
            r == self.spec_check_buffer(layout),
    {
        let max = self.max_buffer_size(layout.role);
        if max == 0 {
            return Err(Error::UnsupportedFeature);
        }
        if layout.capacity > u32::MAX as u64 {
            return Err(Error::UnsupportedSize);
        }
        let capacity = layout.capacity as u32;
        if capacity > max {
            return Err(Error::UnsupportedSize);
        }
        Ok(capacity)
    }

    /// The outcome of creating a texture with the given layout on the context `context`:
    /// `UnsupportedSize` when its width or height exceeds the texture size limit; otherwise
    /// the texture, which belongs to that context.
    pub open spec fn spec_check_texture(self, context: u64, layout: TextureLayout) -> Result<TextureDesc, Error> {
        if max_u32(layout.width, layout.height) > self.max_texture_size {
            Err(Error::UnsupportedSize)
        } else {
            Ok(TextureDesc { owner: context, width: layout.width, height: layout.height, format: layout.format })
        }
    }

    /// Checks that a texture with the given layout can be created on the context `context`.
    pub fn check_texture(&self, context: u64, layout: &TextureLayout) -> (r: Result<TextureDesc, Error>)
        ensures
            r == self.spec_check_texture(context, *layout),
    {
        let max = if layout.width >= layout.height {
            layout.width
        } else {
            layout.height
        };
        if max > self.max_texture_size {
            return Err(Error::UnsupportedSize);
        }
        Ok(TextureDesc { owner: context, width: layout.width, height: layout.height, format: layout.format })
    }

    /// The outcome of creating a framebuffer with the given layout: `UnsupportedSize` when
    /// its width or height exceeds the framebuffer size limit, `UnsupportedFormat` when it
    /// asks for more samples or more color attachments than supported.
    pub open spec fn spec_check_framebuffer(self, layout: FramebufferLayout) -> Result<(), Error> {
        if max_u32(layout.width, layout.height) > self.max_framebuffer_size {
            Err(Error::UnsupportedSize)
        } else if layout.msaa_samples > self.max_framebuffer_msaa {
            Err(Error::UnsupportedFormat)
        } else if layout.color@.len() > self.max_framebuffer_outputs {
            Err(Error::UnsupportedFormat)
        } else {
            Ok(())
        }
    }

    /// Checks that a framebuffer with the given layout can be created.
    pub fn check_framebuffer(&self, layout: &FramebufferLayout) -> (r: Result<(), Error>)
        ensures
            r == self.spec_check_framebuffer(*layout),
    {
        let max = if layout.width >= layout.height {
            layout.width
        } else {
            layout.height
        };
        if max > self.max_framebuffer_size {
            return Err(Error::UnsupportedSize);
        }
        if layout.msaa_samples > self.max_framebuffer_msaa {
            return Err(Error::UnsupportedFormat);
        }
        if layout.color.len() as u64 > self.max_framebuffer_outputs as u64 {
            return Err(Error::UnsupportedFormat);
        }
        Ok(())
    }

    /// The outcome of uploading `len` bytes at `offset`: `InvalidBounds` when the offset
    /// or the length exceed the `u32` range, when the region does not fit the buffer, or
    /// when the offset is not aligned; then `InvalidOperation` when the buffer is not
    /// uploadable; otherwise the whole storage is replaced when the data covers the buffer
    /// exactly, and updated from the offset when it does not.
    pub open spec fn spec_check_upload(self, buffer: BufferDesc, offset: u64, len: usize) -> Result<
        UploadPlan,
        Error,
    > {
        if offset > u32::MAX || len > u32::MAX {
            Err(Error::InvalidBounds)
        } else if !buffer_region_ok(self, buffer, offset as int, len as int) {
            Err(Error::InvalidBounds)
        } else if !buffer.can_upload {
            Err(Error::InvalidOperation)
        } else if offset == 0 && len == buffer.capacity {
            Ok(UploadPlan::Replace)
        } else {
            Ok(UploadPlan::Update(offset as u32))
        }
    }

    /// Checks an upload of `len` bytes at `offset` into the buffer.
    pub fn check_upload(&self, buffer: &BufferDesc, offset: u64, len: usize) -> (r: Result<
        UploadPlan,
        Error,
    >)
        ensures
            r == self.spec_check_upload(*buffer, offset, len),
    {
        if offset > u32::MAX as u64 || len as u64 > u32::MAX as u64 {
            return Err(Error::InvalidBounds);
        }
        let offset = offset as u32;
        let size = len as u32;
        if offset as u64 + size as u64 > buffer.capacity as u64 || !is_multiple_of_u32(
            offset,
            self.buffer_alignment(buffer.role),
        ) {
            return Err(Error::InvalidBounds);
        }
        if !buffer.can_upload {
            return Err(Error::InvalidOperation);
        }
        if offset == 0 && size == buffer.capacity {
            Ok(UploadPlan::Replace)
        } else {
            Ok(UploadPlan::Update(offset))
        }
    }

    /// The outcome of downloading `len` bytes from `offset`: `InvalidBounds` as for an
    /// upload, then `InvalidOperation` when the buffer is not downloadable; otherwise the
    /// offset as `u32`.
    pub open spec fn spec_check_download(self, buffer: BufferDesc, offset: u64, len: usize) -> Result<
        u32,
        Error,
    > {
        if offset > u32::MAX || len > u32::MAX {
            Err(Error::InvalidBounds)
        } else if !buffer_region_ok(self, buffer, offset as int, len as int) {
            Err(Error::InvalidBounds)
        } else if !buffer.can_download {
            Err(Error::InvalidOperation)
        } else {
            Ok(offset as u32)
        }
    }

    /// Checks a download of `len` bytes from `offset` of the buffer.
    pub fn check_download(&self, buffer: &BufferDesc, offset: u64, len: usize) -> (r: Result<
        u32,
        Error,
    >)
        ensures
            r == self.spec_check_download(*buffer, offset, len),
    {
        if offset > u32::MAX as u64 || len as u64 > u32::MAX as u64 {
            return Err(Error::InvalidBounds);
        }
        let offset = offset as u32;
        let size = len as u32;
        if offset as u64 + size as u64 > buffer.capacity as u64 || !is_multiple_of_u32(
            offset,
            self.buffer_alignment(buffer.role),
        ) {
            return Err(Error::InvalidBounds);
        }
        if !buffer.can_download {
            return Err(Error::InvalidOperation);
        }
        Ok(offset)
    }

    /// The outcome of copying `size` bytes from `src` at `src_offset` to `dst` at
    /// `dst_offset`: `InvalidBounds` when a value exceeds the `u32` range, when an offset
    /// is not aligned, when a region does not fit its buffer, or when both regions lie in
    /// the same buffer and overlap.
    pub open spec fn spec_check_copy_buffer(
        self,
        dst: BufferDesc,
        dst_offset: u64,
        src: BufferDesc,
        src_offset: u64,
        size: u64,
    ) -> Result<CopyRegion, Error> {
        if size > u32::MAX || dst_offset > u32::MAX || src_offset > u32::MAX {
            Err(Error::InvalidBounds)
        } else if !multiple_of(dst_offset as int, self.spec_buffer_alignment(dst.role) as int)
            || !multiple_of(src_offset as int, self.spec_buffer_alignment(src.role) as int) {
            Err(Error::InvalidBounds)
        } else if !region_fits(dst_offset as int, size as int, dst.capacity as int) || !region_fits(
            src_offset as int,
            size as int,
            src.capacity as int,
        ) {
            Err(Error::InvalidBounds)
        } else if dst.id == src.id && (if dst_offset <= src_offset { dst_offset } else { src_offset }) + size
            > (if dst_offset >= src_offset { dst_offset } else { src_offset }) {
            Err(Error::InvalidBounds)
        } else {
            Ok(CopyRegion { dst_offset: dst_offset as u32, src_offset: src_offset as u32, size: size as u32 })
        }
    }

    /// Checks a copy of `size` bytes between two buffers.
    pub fn check_copy_buffer(
        &self,
        dst: &BufferDesc,
        dst_offset: u64,
        src: &BufferDesc,
        src_offset: u64,
        size: u64,
    ) -> (r: Result<CopyRegion, Error>)
        ensures
            r == self.spec_check_copy_buffer(*dst, dst_offset, *src, src_offset, size),
    {
        if size > u32::MAX as u64 || dst_offset > u32::MAX as u64 || src_offset > u32::MAX as u64 {
            return Err(Error::InvalidBounds);
        }
        let size = size as u32;
        let offset = dst_offset as u32;
        let source_offset = src_offset as u32;
        if !is_multiple_of_u32(offset, self.buffer_alignment(dst.role)) || !is_multiple_of_u32(
            source_offset,
            self.buffer_alignment(src.role),
        ) {
            return Err(Error::InvalidBounds);
        }
        if offset as u64 + size as u64 > dst.capacity as u64 || source_offset as u64 + size as u64
            > src.capacity as u64 {
            return Err(Error::InvalidBounds);
        }
        let low = if offset <= source_offset {
            offset
        } else {
            source_offset
        };
        let high = if offset >= source_offset {
            offset
        } else {
            source_offset
        };
        if dst.id == src.id && low as u64 + size as u64 > high as u64 {
            return Err(Error::InvalidBounds);
        }
        Ok(CopyRegion { dst_offset: offset, src_offset: source_offset, size })
    }

    /// The outcome of copying pixels from a buffer at `src_offset` into `bounds` of a
    /// texture: `InvalidBounds` when the offset exceeds the `u32` range, when the bounds
    /// leave the texture, when the pixel data does not fit the buffer, or when the offset
    /// is not aligned; otherwise the offset as `u32`.
    pub open spec fn spec_check_copy_to_texture(
        self,
        texture: TextureDesc,
        bounds: TextureBounds,
        buffer: BufferDesc,
        src_offset: u64,
    ) -> Result<u32, Error> {
        if src_offset > u32::MAX {
            Err(Error::InvalidBounds)
        } else if !bounds_within(bounds, texture.width, texture.height) {
            Err(Error::InvalidBounds)
        } else if !buffer_region_ok(
            self,
            buffer,
            src_offset as int,
            region_size(bounds, texture.format.pixel_size()),
        ) {
            Err(Error::InvalidBounds)
        } else {
            Ok(src_offset as u32)
        }
    }

    /// Checks a copy of pixels from a buffer into a texture.
    pub fn check_copy_to_texture(
        &self,
        texture: &TextureDesc,
        bounds: TextureBounds,
        buffer: &BufferDesc,
        src_offset: u64,
    ) -> (r: Result<u32, Error>)
        ensures
            r == self.spec_check_copy_to_texture(*texture, bounds, *buffer, src_offset),
    {
        let size = region_bytes(bounds, texture.format.bytes_per_pixel());
        if src_offset > u32::MAX as u64 {
            return Err(Error::InvalidBounds);
        }
        let offset = src_offset as u32;
        if !bounds_within_exec(bounds, texture.width, texture.height) {
            return Err(Error::InvalidBounds);
        }
        if !region_fits_exec(offset, size, buffer.capacity) || !is_multiple_of_u32(
            offset,
            self.buffer_alignment(buffer.role),
        ) {
            return Err(Error::InvalidBounds);
        }
        Ok(offset)
    }
}


/// The attachment that a read of `attachment` takes its pixels from, with the size of
/// one pixel: `InvalidOperation` when the framebuffer has no such attachment.
pub open spec fn spec_read_source(fb: FramebufferDesc, attachment: FramebufferAttachment) -> Result<
    (ReadSource, nat),
    Error,
> {
    match attachment {
        FramebufferAttachment::Stencil => match fb.depth {
            Some(d) => if d.stencil is Some {
                Ok((ReadSource::Stencil, 1))
            } else {
                Err(Error::InvalidOperation)
            },
            None => Err(Error::InvalidOperation),
        },
        FramebufferAttachment::Depth => match fb.depth {
            Some(d) => if d.depth is Some {
                Ok((ReadSource::Depth, 4))
            } else {
                Err(Error::InvalidOperation)
            },
            None => Err(Error::InvalidOperation),
        },
        FramebufferAttachment::Color(index) => if (index as int) < fb.color@.len() {
            Ok(
                (
                    ReadSource::Color(index, fb.color@[index as int].format),
                    fb.color@[index as int].format.pixel_size(),
                ),
            )
        } else {
            Err(Error::InvalidOperation)
        },
    }
}

/// Finds the attachment that a read of `attachment` takes its pixels from.
pub fn read_source(fb: &FramebufferDesc, attachment: FramebufferAttachment) -> (r: Result<
    (ReadSource, u32),
    Error,
>)
    ensures
        match (r, spec_read_source(*fb, attachment)) {
            (Ok((s, p)), Ok((t, q))) => s == t && p == q,
            (Err(e), Err(f)) => e == f,
            _ => false,
        },
        r matches Ok((_, p)) ==> p <= 8,
{
    match attachment {
        FramebufferAttachment::Stencil => match &fb.depth {
            Some(d) => if d.stencil.is_some() {
                Ok((ReadSource::Stencil, 1))
            } else {
                Err(Error::InvalidOperation)
            },
            None => Err(Error::InvalidOperation),
        },
        FramebufferAttachment::Depth => match &fb.depth {
            Some(d) => if d.depth.is_some() {
                Ok((ReadSource::Depth, 4))
            } else {
                Err(Error::InvalidOperation)
            },
            None => Err(Error::InvalidOperation),
        },
        FramebufferAttachment::Color(index) => if (index as usize) < fb.color.len() {
            let format = fb.color[index as usize].format;
            Ok((ReadSource::Color(index, format), format.bytes_per_pixel()))
        } else {
            Err(Error::InvalidOperation)
        },
    }
}

impl Features {
    /// The outcome of reading `bounds` of a framebuffer attachment into a buffer at
    /// `dst_offset`: `InvalidOperation` when the framebuffer lacks the attachment; then
    /// `InvalidBounds` when the offset exceeds the `u32` range, when the bounds leave the
    /// framebuffer, when the pixel data does not fit the buffer, or when the offset is not
    /// aligned.
    pub open spec fn spec_check_read_framebuffer(
        self,
        buffer: BufferDesc,
        dst_offset: u64,
        fb: FramebufferDesc,
        attachment: FramebufferAttachment,
        bounds: TextureBounds,
    ) -> Result<ReadbackPlan, Error> {
        match spec_read_source(fb, attachment) {
            Err(e) => Err(e),
            Ok((source, pixel)) => if dst_offset > u32::MAX {
                Err(Error::InvalidBounds)
            } else if !bounds_within(bounds, fb.width, fb.height) {
                Err(Error::InvalidBounds)
            } else if !buffer_region_ok(self, buffer, dst_offset as int, region_size(bounds, pixel)) {
                Err(Error::InvalidBounds)
            } else {
                Ok(ReadbackPlan { source, offset: dst_offset as u32 })
            },
        }
    }

    /// Checks a read of framebuffer pixels into a buffer.
    pub fn check_read_framebuffer(
        &self,
        buffer: &BufferDesc,
        dst_offset: u64,
        fb: &FramebufferDesc,
        attachment: FramebufferAttachment,
        bounds: TextureBounds,
    ) -> (r: Result<ReadbackPlan, Error>)
        ensures
            r == self.spec_check_read_framebuffer(*buffer, dst_offset, *fb, attachment, bounds),
    {
        let (source, pixel) = match read_source(fb, attachment) {
            Ok(found) => found,
            Err(e) => return Err(e),
        };
        let size = region_bytes(bounds, pixel);
        if dst_offset > u32::MAX as u64 {
            return Err(Error::InvalidBounds);
        }
        let offset = dst_offset as u32;
        if !bounds_within_exec(bounds, fb.width, fb.height) {
            return Err(Error::InvalidBounds);
        }
        if !region_fits_exec(offset, size, buffer.capacity) || !is_multiple_of_u32(
            offset,
            self.buffer_alignment(buffer.role),
        ) {
            return Err(Error::InvalidBounds);
        }
        Ok(ReadbackPlan { source, offset })
    }
}

/// What the depth/stencil attachment of a new framebuffer holds, or `None` when the
/// layout asks for neither depth nor stencil.
pub open spec fn spec_depth_stencil_kind(depth: Option<DepthFormat>, stencil: Option<StencilFormat>) -> Option<
    DepthStencilKind,
> {
    match (depth, stencil) {
        (Some(_), Some(_)) => Some(DepthStencilKind::DepthStencil),
        (Some(_), None) => Some(DepthStencilKind::Depth),
        (None, Some(_)) => Some(DepthStencilKind::Stencil),
        (None, None) => None,
    }
}

/// Decides what the depth/stencil attachment of a new framebuffer holds.
pub fn depth_stencil_kind(depth: Option<DepthFormat>, stencil: Option<StencilFormat>) -> (r: Option<
    DepthStencilKind,
>)
    ensures
        r == spec_depth_stencil_kind(depth, stencil),
{
    match (depth, stencil) {
        (Some(_), Some(_)) => Some(DepthStencilKind::DepthStencil),
        (Some(_), None) => Some(DepthStencilKind::Depth),
        (None, Some(_)) => Some(DepthStencilKind::Stencil),
        (None, None) => None,
    }
}


impl Features {
    /// The outcome of an upload on the context `context`: `InvalidResource` when the
    /// buffer belongs to another context, otherwise as [`Features::check_upload`].
    pub open spec fn spec_check_owned_upload(self, context: u64, buffer: BufferDesc, offset: u64, len: usize) -> Result<
        UploadPlan,
        Error,
    > {
        if buffer.owner != context {
            Err(Error::InvalidResource)
        } else {
            self.spec_check_upload(buffer, offset, len)
        }
    }

    /// Checks an upload on the context `context`: ownership first, then the upload.
    pub fn check_owned_upload(&self, context: u64, buffer: &BufferDesc, offset: u64, len: usize) -> (r: Result<
        UploadPlan,
        Error,
    >)
        ensures
            r == self.spec_check_owned_upload(context, *buffer, offset, len),
    {
        match check_owner(context, buffer.owner) {
            Err(e) => Err(e),
            Ok(()) => self.check_upload(buffer, offset, len),
        }
    }

    /// The outcome of a download on the context `context`: `InvalidResource` when the
    /// buffer belongs to another context, otherwise as [`Features::check_download`].
    pub open spec fn spec_check_owned_download(self, context: u64, buffer: BufferDesc, offset: u64, len: usize) -> Result<
        u32,
        Error,
    > {
        if buffer.owner != context {
            Err(Error::InvalidResource)
        } else {
            self.spec_check_download(buffer, offset, len)
        }
    }

    /// Checks a download on the context `context`: ownership first, then the download.
    pub fn check_owned_download(&self, context: u64, buffer: &BufferDesc, offset: u64, len: usize) -> (r: Result<
        u32,
        Error,
    >)
        ensures
            r == self.spec_check_owned_download(context, *buffer, offset, len),
    {
        match check_owner(context, buffer.owner) {
            Err(e) => Err(e),
            Ok(()) => self.check_download(buffer, offset, len),
        }
    }

    /// The outcome of a copy between buffers on the context `context`: `InvalidResource`
    /// when either buffer belongs to another context, otherwise as
    /// [`Features::check_copy_buffer`].
    pub open spec fn spec_check_owned_copy_buffer(
        self,
        context: u64,
        dst: BufferDesc,
        dst_offset: u64,
        src: BufferDesc,
        src_offset: u64,
        size: u64,
    ) -> Result<CopyRegion, Error> {
        if dst.owner != context || src.owner != context {
            Err(Error::InvalidResource)
        } else {
            self.spec_check_copy_buffer(dst, dst_offset, src, src_offset, size)
        }
    }

    /// Checks a copy between buffers on the context `context`: ownership first, then the
    /// copy.
    pub fn check_owned_copy_buffer(
        &self,
        context: u64,
        dst: &BufferDesc,
        dst_offset: u64,
        src: &BufferDesc,
        src_offset: u64,
        size: u64,
    ) -> (r: Result<CopyRegion, Error>)
        ensures
            r == self.spec_check_owned_copy_buffer(context, *dst, dst_offset, *src, src_offset, size),
    {
        if dst.owner != context || src.owner != context {
            return Err(Error::InvalidResource);
        }
        self.check_copy_buffer(dst, dst_offset, src, src_offset, size)
    }

    /// The outcome of a copy from a buffer into a texture on the context `context`:
    /// `InvalidResource` when the texture or the buffer belongs to another context,
    /// otherwise as [`Features::check_copy_to_texture`].
    pub open spec fn spec_check_owned_copy_to_texture(
        self,
        context: u64,
        texture: TextureDesc,
        bounds: TextureBounds,
        buffer: BufferDesc,
        src_offset: u64,
    ) -> Result<u32, Error> {
        if texture.owner != context || buffer.owner != context {
            Err(Error::InvalidResource)
        } else {
            self.spec_check_copy_to_texture(texture, bounds, buffer, src_offset)
        }
    }

    /// Checks a copy from a buffer into a texture on the context `context`: ownership
    /// first, then the copy.
    pub fn check_owned_copy_to_texture(
        &self,
        context: u64,
        texture: &TextureDesc,
        bounds: TextureBounds,
        buffer: &BufferDesc,
        src_offset: u64,
    ) -> (r: Result<u32, Error>)
        ensures
            r == self.spec_check_owned_copy_to_texture(context, *texture, bounds, *buffer, src_offset),
    {
        if texture.owner != context || buffer.owner != context {
            return Err(Error::InvalidResource);
        }
        self.check_copy_to_texture(texture, bounds, buffer, src_offset)
    }

    /// The outcome of reading framebuffer pixels into a buffer on the context `context`:
    /// `InvalidResource` when the buffer or the framebuffer belongs to another context,
    /// otherwise as [`Features::check_read_framebuffer`].
    pub open spec fn spec_check_owned_read_framebuffer(
        self,
        context: u64,
        buffer: BufferDesc,
        dst_offset: u64,
        fb: FramebufferDesc,
        attachment: FramebufferAttachment,
        bounds: TextureBounds,
    ) -> Result<ReadbackPlan, Error> {
        if buffer.owner != context || fb.owner != context {
            Err(Error::InvalidResource)
        } else {
            self.spec_check_read_framebuffer(buffer, dst_offset, fb, attachment, bounds)
        }
    }

    /// Checks a read of framebuffer pixels into a buffer on the context `context`:
    /// ownership first, then the read.
    pub fn check_owned_read_framebuffer(
        &self,
        context: u64,
        buffer: &BufferDesc,
        dst_offset: u64,
        fb: &FramebufferDesc,
        attachment: FramebufferAttachment,
        bounds: TextureBounds,
    ) -> (r: Result<ReadbackPlan, Error>)
        ensures
            r == self.spec_check_owned_read_framebuffer(context, *buffer, dst_offset, *fb, attachment, bounds),
    {
        if buffer.owner != context || fb.owner != context {
            return Err(Error::InvalidResource);
        }
        self.check_read_framebuffer(buffer, dst_offset, fb, attachment, bounds)
    }
}

/// The offset alignment that a context asks of buffers of the given role, read off its
/// features: its uniform or storage offset alignment; staging buffers take any offset.
pub open spec fn role_alignment(features: Features, role: BufferRole) -> int {
    match role {
        BufferRole::Uniform => features.uniform_buffer_offset_alignment as int,
        BufferRole::Storage => features.storage_buffer_offset_alignment as int,
        BufferRole::Staging => 1,
    }
}

/// `offset` is a whole number of `alignment` steps; with an alignment of 0 only offset 0
/// is.
pub open spec fn aligned(offset: int, alignment: int) -> bool {
    if alignment == 0 {
        offset == 0
    } else {
        offset % alignment == 0
    }
}

/// Law: the alignment of offsets into a buffer is the one that the context asks of
/// buffers of its role.
pub proof fn law_buffer_alignment_per_role(features: Features, role: BufferRole, offset: int)
    ensures
        features.spec_buffer_alignment(role) == role_alignment(features, role),
        multiple_of(offset, features.spec_buffer_alignment(role) as int) == aligned(
            offset,
            role_alignment(features, role),
        ),
{
}

/// Law: a buffer that the backend accepts with an uploadable layout accepts an upload of
/// its whole capacity at offset 0, which replaces its storage.
pub proof fn law_created_buffer_accepts_full_upload(features: Features, layout: BufferLayout, owner: u64, id: u32)
    requires
        layout.can_upload,
        features.spec_check_buffer(layout) is Ok,
    ensures
        ({
            let capacity = features.spec_check_buffer(layout)->Ok_0;
            let buffer = BufferDesc {
                owner,
                id,
                role: layout.role,
                capacity,
                can_upload: true,
                can_download: layout.can_download,
            };
            features.spec_check_upload(buffer, 0, capacity as usize) == Ok::<UploadPlan, Error>(UploadPlan::Replace)
        }),
{
}

/// Law: a buffer that the backend accepts with a downloadable layout accepts a download
/// of its whole capacity from offset 0.
pub proof fn law_created_buffer_accepts_full_download(features: Features, layout: BufferLayout, owner: u64, id: u32)
    requires
        layout.can_download,
        features.spec_check_buffer(layout) is Ok,
    ensures
        ({
            let capacity = features.spec_check_buffer(layout)->Ok_0;
            let buffer = BufferDesc {
                owner,
                id,
                role: layout.role,
                capacity,
                can_upload: layout.can_upload,
                can_download: true,
            };
            features.spec_check_download(buffer, 0, capacity as usize) == Ok::<u32, Error>(0)
        }),
{
}

/// Law: an accepted upload or download touches only bytes within the buffer, at an
/// offset aligned for its role, and only when the buffer allows it.
pub proof fn law_accepted_access_within_buffer(features: Features, buffer: BufferDesc, offset: u64, len: usize)
    ensures
        features.spec_check_upload(buffer, offset, len) is Ok ==> offset + len <= buffer.capacity && multiple_of(
            offset as int,
            features.spec_buffer_alignment(buffer.role) as int,
        ) && buffer.can_upload,
        features.spec_check_download(buffer, offset, len) is Ok ==> offset + len <= buffer.capacity
            && multiple_of(offset as int, features.spec_buffer_alignment(buffer.role) as int)
            && buffer.can_download,
        features.spec_check_upload(buffer, offset, len) is Ok ==> aligned(
            offset as int,
            role_alignment(features, buffer.role),
        ),
        features.spec_check_download(buffer, offset, len) is Ok ==> aligned(
            offset as int,
            role_alignment(features, buffer.role),
        ) && features.spec_check_download(buffer, offset, len) == Ok::<u32, Error>(offset as u32),
{
}

/// Law: an upload or download of a region that lies within the buffer, at an offset that
/// the buffer's role aligns, is accepted exactly when the buffer allows it; an upload of
/// the whole buffer replaces it, any other updates it from the offset.
pub proof fn law_access_within_buffer_accepted(features: Features, buffer: BufferDesc, offset: u64, len: usize)
    requires
        offset + len <= buffer.capacity,
        aligned(offset as int, role_alignment(features, buffer.role)),
    ensures
        buffer.can_upload ==> features.spec_check_upload(buffer, offset, len) == Ok::<UploadPlan, Error>(
            if offset == 0 && len == buffer.capacity {
                UploadPlan::Replace
            } else {
                UploadPlan::Update(offset as u32)
            },
        ),
        !buffer.can_upload ==> features.spec_check_upload(buffer, offset, len) == Err::<UploadPlan, Error>(
            Error::InvalidOperation,
        ),
        buffer.can_download ==> features.spec_check_download(buffer, offset, len) == Ok::<u32, Error>(
            offset as u32,
        ),
        !buffer.can_download ==> features.spec_check_download(buffer, offset, len) == Err::<u32, Error>(
            Error::InvalidOperation,
        ),
{
}

/// Law: an accepted copy between buffers reads and writes only bytes within each buffer,
/// and within one buffer the two regions do not overlap.
pub proof fn law_accepted_copy_within_and_disjoint(
    features: Features,
    dst: BufferDesc,
    dst_offset: u64,
    src: BufferDesc,
    src_offset: u64,
    size: u64,
)
    requires
        features.spec_check_copy_buffer(dst, dst_offset, src, src_offset, size) is Ok,
    ensures
        dst_offset + size <= dst.capacity,
        src_offset + size <= src.capacity,
        dst.id == src.id ==> dst_offset + size <= src_offset || src_offset + size <= dst_offset,
        aligned(dst_offset as int, role_alignment(features, dst.role)),
        aligned(src_offset as int, role_alignment(features, src.role)),
        features.spec_check_copy_buffer(dst, dst_offset, src, src_offset, size) == Ok::<CopyRegion, Error>(
            CopyRegion { dst_offset: dst_offset as u32, src_offset: src_offset as u32, size: size as u32 },
        ),
{
}

/// Law: a copy between buffers whose regions lie within their buffers, at offsets that
/// each buffer's role aligns, and that do not overlap within one buffer, is accepted as
/// the region of those offsets and size.
pub proof fn law_copy_within_and_disjoint_accepted(
    features: Features,
    dst: BufferDesc,
    dst_offset: u64,
    src: BufferDesc,
    src_offset: u64,
    size: u64,
)
    requires
        dst_offset + size <= dst.capacity,
        src_offset + size <= src.capacity,
        dst.id == src.id ==> dst_offset + size <= src_offset || src_offset + size <= dst_offset,
        aligned(dst_offset as int, role_alignment(features, dst.role)),
        aligned(src_offset as int, role_alignment(features, src.role)),
    ensures
        features.spec_check_copy_buffer(dst, dst_offset, src, src_offset, size) == Ok::<CopyRegion, Error>(
            CopyRegion { dst_offset: dst_offset as u32, src_offset: src_offset as u32, size: size as u32 },
        ),
{
}

/// Law: an accepted copy into a texture writes only pixels within the texture and reads
/// only bytes within the buffer.
pub proof fn law_accepted_copy_to_texture_within(
    features: Features,
    texture: TextureDesc,
    bounds: TextureBounds,
    buffer: BufferDesc,
    src_offset: u64,
)
    requires
        features.spec_check_copy_to_texture(texture, bounds, buffer, src_offset) is Ok,
    ensures
        bounds.x + bounds.width <= texture.width,
        bounds.y + bounds.height <= texture.height,
        src_offset + region_size(bounds, texture.format.pixel_size()) <= buffer.capacity,
        aligned(src_offset as int, role_alignment(features, buffer.role)),
        features.spec_check_copy_to_texture(texture, bounds, buffer, src_offset) == Ok::<u32, Error>(
            src_offset as u32,
        ),
{
}

/// Law: a copy into a texture of pixels that lie within the texture, from a region that
/// lies within the buffer at an offset that the buffer's role aligns, is accepted at that
/// offset.
pub proof fn law_copy_to_texture_within_accepted(
    features: Features,
    texture: TextureDesc,
    bounds: TextureBounds,
    buffer: BufferDesc,
    src_offset: u64,
)
    requires
        bounds.x + bounds.width <= texture.width,
        bounds.y + bounds.height <= texture.height,
        src_offset + bounds.width * bounds.height * texture.format.pixel_size() <= buffer.capacity,
        aligned(src_offset as int, role_alignment(features, buffer.role)),
    ensures
        features.spec_check_copy_to_texture(texture, bounds, buffer, src_offset) == Ok::<u32, Error>(
            src_offset as u32,
        ),
{
}

/// Law: a context without uniform (storage) buffers refuses every uniform (storage)
/// buffer, whatever its capacity.
pub proof fn law_unsupported_buffers_refused(
    version: crate::opengl::features::GlVersion,
    ext: crate::opengl::features::GlExtensions,
    params: crate::opengl::features::GlParameters,
    layout: BufferLayout,
)
    ensures
        ({
            let f = Features::spec_from_context(version, ext, params);
            &&& (!f.uniform_buffers && layout.role == BufferRole::Uniform) ==> f.spec_check_buffer(layout)
                == Err::<u32, Error>(Error::UnsupportedFeature)
            &&& (!f.storage_buffers && layout.role == BufferRole::Storage) ==> f.spec_check_buffer(layout)
                == Err::<u32, Error>(Error::UnsupportedFeature)
        }),
{
}


/// Law: a buffer, texture or framebuffer that the backend accepts respects the limits of
/// the context: a buffer keeps its requested capacity, which is within the limit of its
/// role; a texture's and a framebuffer's sides are within their size limits; a
/// framebuffer has no more samples and color attachments than supported.
pub proof fn law_created_resources_within_limits(
    features: Features,
    context: u64,
    buffer: BufferLayout,
    texture: TextureLayout,
    framebuffer: FramebufferLayout,
)
    ensures
        features.spec_check_buffer(buffer) is Ok ==> features.spec_check_buffer(buffer)->Ok_0 == buffer.capacity
            && buffer.capacity <= features.spec_max_buffer_size(buffer.role),
        features.spec_check_texture(context, texture) is Ok ==> texture.width <= features.max_texture_size
            && texture.height <= features.max_texture_size,
        features.spec_check_framebuffer(framebuffer) is Ok ==> framebuffer.width <= features.max_framebuffer_size
            && framebuffer.height <= features.max_framebuffer_size && framebuffer.msaa_samples
            <= features.max_framebuffer_msaa && framebuffer.color@.len() <= features.max_framebuffer_outputs,
{
}


/// Law: an accepted read of framebuffer pixels reads only pixels within the framebuffer
/// and writes only bytes within the buffer.
pub proof fn law_accepted_read_within(
    features: Features,
    buffer: BufferDesc,
    dst_offset: u64,
    fb: FramebufferDesc,
    attachment: FramebufferAttachment,
    bounds: TextureBounds,
)
    requires
        features.spec_check_read_framebuffer(buffer, dst_offset, fb, attachment, bounds) is Ok,
    ensures
        bounds.x + bounds.width <= fb.width,
        bounds.y + bounds.height <= fb.height,
        dst_offset + region_size(bounds, (spec_read_source(fb, attachment)->Ok_0).1) <= buffer.capacity,
{
}


/// Law: on a context, every buffer, texture and framebuffer operation refuses a resource
/// made by another context with `InvalidResource`, whatever else it is asked; with
/// resources of the context itself, it decides as the same operation without the
/// ownership check.
pub proof fn law_foreign_resources_refused(
    features: Features,
    context: u64,
    buffer: BufferDesc,
    other: BufferDesc,
    texture: TextureDesc,
    fb: FramebufferDesc,
    offset: u64,
    other_offset: u64,
    len: usize,
    attachment: FramebufferAttachment,
    bounds: TextureBounds,
)
    ensures
        buffer.owner != context ==> {
            &&& features.spec_check_owned_upload(context, buffer, offset, len) == Err::<UploadPlan, Error>(
                Error::InvalidResource,
            )
            &&& features.spec_check_owned_download(context, buffer, offset, len) == Err::<u32, Error>(
                Error::InvalidResource,
            )
            &&& features.spec_check_owned_copy_buffer(context, buffer, offset, other, other_offset, len as u64)
                == Err::<CopyRegion, Error>(Error::InvalidResource)
            &&& features.spec_check_owned_copy_buffer(context, other, other_offset, buffer, offset, len as u64)
                == Err::<CopyRegion, Error>(Error::InvalidResource)
            &&& features.spec_check_owned_copy_to_texture(context, texture, bounds, buffer, offset) == Err::<
                u32,
                Error,
            >(Error::InvalidResource)
            &&& features.spec_check_owned_read_framebuffer(context, buffer, offset, fb, attachment, bounds)
                == Err::<ReadbackPlan, Error>(Error::InvalidResource)
        },
        texture.owner != context ==> features.spec_check_owned_copy_to_texture(
            context,
            texture,
            bounds,
            buffer,
            offset,
        ) == Err::<u32, Error>(Error::InvalidResource),
        fb.owner != context ==> features.spec_check_owned_read_framebuffer(
            context,
            buffer,
            offset,
            fb,
            attachment,
            bounds,
        ) == Err::<ReadbackPlan, Error>(Error::InvalidResource),
        buffer.owner == context ==> {
            &&& features.spec_check_owned_upload(context, buffer, offset, len) == features.spec_check_upload(
                buffer,
                offset,
                len,
            )
            &&& features.spec_check_owned_download(context, buffer, offset, len) == features.spec_check_download(
                buffer,
                offset,
                len,
            )
        },
        buffer.owner == context && other.owner == context ==> features.spec_check_owned_copy_buffer(
            context,
            buffer,
            offset,
            other,
            other_offset,
            len as u64,
        ) == features.spec_check_copy_buffer(buffer, offset, other, other_offset, len as u64),
        buffer.owner == context && texture.owner == context ==> features.spec_check_owned_copy_to_texture(
            context,
            texture,
            bounds,
            buffer,
            offset,
        ) == features.spec_check_copy_to_texture(texture, bounds, buffer, offset),
        buffer.owner == context && fb.owner == context ==> features.spec_check_owned_read_framebuffer(
            context,
            buffer,
            offset,
            fb,
            attachment,
            bounds,
        ) == features.spec_check_read_framebuffer(buffer, offset, fb, attachment, bounds),
{
}


/// Law: a buffer is created with the capacity asked for exactly when its role is supported
/// (a uniform or storage buffer limit other than 0; staging buffers up to `i32::MAX`
/// bytes) and the capacity is within that limit; an unsupported role is refused first,
/// then a capacity beyond the limit.
pub proof fn law_buffer_creation(features: Features, layout: BufferLayout)
    ensures
        ({
            let max: int = match layout.role {
                BufferRole::Uniform => features.max_uniform_buffer_size as int,
                BufferRole::Storage => features.max_storage_buffer_size as int,
                BufferRole::Staging => 0x7fff_ffff,
            };
            let r = features.spec_check_buffer(layout);
            &&& max == 0 ==> r == Err::<u32, Error>(Error::UnsupportedFeature)
            &&& max != 0 && layout.capacity > max ==> r == Err::<u32, Error>(Error::UnsupportedSize)
            &&& max != 0 && layout.capacity <= max ==> r == Ok::<u32, Error>(layout.capacity as u32)
        }),
{
}

/// Law: a texture is created on a context exactly when both of its sides are within the
/// texture size limit, and it then belongs to that context with the size and format asked
/// for; a framebuffer is refused for its size first (`UnsupportedSize`), then for more
/// samples or color attachments than supported (`UnsupportedFormat`), and is accepted
/// otherwise.
pub proof fn law_texture_and_framebuffer_creation(
    features: Features,
    context: u64,
    texture: TextureLayout,
    framebuffer: FramebufferLayout,
)
    ensures
        texture.width <= features.max_texture_size && texture.height <= features.max_texture_size
            ==> features.spec_check_texture(context, texture) == Ok::<TextureDesc, Error>(
            TextureDesc { owner: context, width: texture.width, height: texture.height, format: texture.format },
        ),
        !(texture.width <= features.max_texture_size && texture.height <= features.max_texture_size)
            ==> features.spec_check_texture(context, texture) == Err::<TextureDesc, Error>(Error::UnsupportedSize),
        !(framebuffer.width <= features.max_framebuffer_size && framebuffer.height <= features.max_framebuffer_size)
            ==> features.spec_check_framebuffer(framebuffer) == Err::<(), Error>(Error::UnsupportedSize),
        framebuffer.width <= features.max_framebuffer_size && framebuffer.height <= features.max_framebuffer_size
            ==> features.spec_check_framebuffer(framebuffer) == (if framebuffer.msaa_samples
            <= features.max_framebuffer_msaa && framebuffer.color@.len() <= features.max_framebuffer_outputs {
            Ok::<(), Error>(())
        } else {
            Err::<(), Error>(Error::UnsupportedFormat)
        }),
{
}

/// What a read of an attachment of a framebuffer reads, and how many bytes each pixel
/// takes: the stencil values (1 byte) when the depth/stencil attachment holds stencil, the
/// depth values (4 bytes) when it holds depth, a color attachment that exists in its
/// format; `None` for an attachment that the framebuffer lacks.
pub open spec fn attachment_read(fb: FramebufferDesc, attachment: FramebufferAttachment) -> Option<
    (ReadSource, int),
> {
    match attachment {
        FramebufferAttachment::Stencil => if fb.depth is Some && fb.depth->0.stencil is Some {
            Some((ReadSource::Stencil, 1))
        } else {
            None
        },
        FramebufferAttachment::Depth => if fb.depth is Some && fb.depth->0.depth is Some {
            Some((ReadSource::Depth, 4))
        } else {
            None
        },
        FramebufferAttachment::Color(i) => if (i as int) < fb.color@.len() {
            Some((ReadSource::Color(i, fb.color@[i as int].format), fb.color@[i as int].format.pixel_size() as int))
        } else {
            None
        },
    }
}

/// Law: reading an attachment that the framebuffer lacks is `InvalidOperation`; reading
/// one that it has is accepted, from that attachment into the given offset, exactly when
/// the pixels lie within the framebuffer and their bytes within the buffer at an offset
/// that the buffer's role aligns, and is `InvalidBounds` otherwise.
pub proof fn law_read_framebuffer(
    features: Features,
    buffer: BufferDesc,
    dst_offset: u64,
    fb: FramebufferDesc,
    attachment: FramebufferAttachment,
    bounds: TextureBounds,
)
    ensures
        ({
            let r = features.spec_check_read_framebuffer(buffer, dst_offset, fb, attachment, bounds);
            match attachment_read(fb, attachment) {
                None => r == Err::<ReadbackPlan, Error>(Error::InvalidOperation),
                Some((source, pixel)) => if bounds.x + bounds.width <= fb.width && bounds.y + bounds.height
                    <= fb.height && dst_offset + bounds.width * bounds.height * pixel <= buffer.capacity
                    && aligned(dst_offset as int, role_alignment(features, buffer.role)) {
                    r == Ok::<ReadbackPlan, Error>(ReadbackPlan { source, offset: dst_offset as u32 })
                } else {
                    r == Err::<ReadbackPlan, Error>(Error::InvalidBounds)
                },
            }
        }),
{
}


/// Law: a new framebuffer has a depth/stencil attachment exactly when its layout asks
/// for depth or stencil, and the attachment holds depth exactly when depth is asked for
/// and stencil exactly when stencil is.
pub proof fn law_depth_stencil_attachment(depth: Option<DepthFormat>, stencil: Option<StencilFormat>)
    ensures
        spec_depth_stencil_kind(depth, stencil) is None <==> (depth is None && stencil is None),
        spec_depth_stencil_kind(depth, stencil) matches Some(k) ==> ((k == DepthStencilKind::Depth || k
            == DepthStencilKind::DepthStencil) <==> depth is Some) && ((k == DepthStencilKind::Stencil || k
            == DepthStencilKind::DepthStencil) <==> stencil is Some),
{
}

} // verus!
