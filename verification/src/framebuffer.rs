use vstd::prelude::*;
use crate::texture::TextureFormat;

verus! {

/// The format of the depth attachment.
#[derive(Debug, Clone, Copy, PartialEq, Eq, Structural)]
pub enum DepthFormat {
    /// 24-bit unsigned normalized depth.
    D24,
    /// 32-bit floating point depth.
    D32F,
}

/// The format of the stencil attachment.
#[derive(Debug, Clone, Copy, PartialEq, Eq, Structural)]
pub enum StencilFormat {
    /// 8-bit unsigned stencil component.
    S8,
}

/// The kind of attachment of a framebuffer.
#[derive(Debug, Clone, Copy, PartialEq, Eq, Structural)]
pub enum FramebufferAttachment {
    /// The color attachment with the given index.
    Color(u8),
    /// The depth attachment.
    Depth,
    /// The stencil attachment.
    Stencil,
}

/// The layout of a framebuffer, used for creating a framebuffer with the desired
/// specifications.
#[derive(Debug, Clone, Copy)]
pub struct FramebufferLayout<'a> {
    /// The width of the framebuffer in pixels.
    pub width: u32,
    /// The height of the framebuffer in pixels.
    pub height: u32,
    /// The formats of the color attachments, in attachment order.
    pub color: &'a [TextureFormat],
    /// The format of the depth attachment, if any.
    pub depth: Option<DepthFormat>,
    /// The format of the stencil attachment, if any.
    pub stencil: Option<StencilFormat>,
    /// The number of MSAA samples, 0 if MSAA is not used.
    pub msaa_samples: u32,
    /// Whether the contents are preserved across frames.
    pub is_persistent: bool,
    /// Whether the color attachments can be sampled from.
    pub is_color_bindable: bool,
    /// Whether the depth attachment can be sampled from.
    pub is_depth_bindable: bool,
}

impl DepthFormat {
    /// The size in bytes of one depth value of this format.
    pub open spec fn pixel_size(self) -> nat {
        match self {
            DepthFormat::D24 => 3,
            DepthFormat::D32F => 4,
        }
    }

    /// Returns the number of bytes per pixel for this depth format.
    pub fn bytes_per_pixel(&self) -> (r: u32)
        ensures
            r == self.pixel_size(),
    {
        match self {
            DepthFormat::D24 => 3,
            DepthFormat::D32F => 4,
        }
    }
}

impl StencilFormat {
    /// The size in bytes of one stencil value of this format.
    pub open spec fn pixel_size(self) -> nat {
        match self {
            StencilFormat::S8 => 1,
        }
    }

    /// Returns the number of bytes per pixel for this stencil format.
    pub fn bytes_per_pixel(&self) -> (r: u32)
        ensures
            r == self.pixel_size(),
    {
        match self {
            StencilFormat::S8 => 1,
        }
    }
}

} // verus!
