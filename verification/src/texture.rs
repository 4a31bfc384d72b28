use vstd::prelude::*;

verus! {

/// Texture format: how the color of a pixel is stored and interpreted.
#[derive(Debug, Clone, Copy, PartialEq, Eq, Structural)]
#[non_exhaustive]
pub enum TextureFormat {
    /// 8-bit unsigned normalized red channel (0..1).
    R8,
    /// 8-bit unsigned normalized red, green, blue, alpha channels (0..1).
    RGBA8,
    /// 8-bit unsigned normalized blue, green, red, alpha channels (0..1).
    BGRA8,
    /// 8-bit signed normalized red channel (-1..1).
    R8S,
    /// 16-bit signed normalized red channel (-1..1).
    R16S,
    /// 32-bit floating point red channel.
    R32F,
    /// 32-bit floating point red and green channels.
    RG32F,
}

/// The filtering mode used when texture coordinates do not map 1:1 to texels.
#[derive(Debug, Clone, Copy, PartialEq, Eq, Structural)]
pub enum TextureFilter {
    /// Nearest neighbor filtering.
    Nearest,
    /// Bilinear filtering.
    Linear,
}

/// How texture coordinates outside [0, 1] are handled.
#[derive(Debug, Clone, Copy, PartialEq, Structural)]
pub enum TextureWrap {
    /// Clamp the coordinates to [0, 1].
    Clamp,
    /// Repeat the texture.
    Repeat,
    /// Mirror the texture and repeat.
    Mirror,
    /// Use a constant border color.
    Border,
}

/// The border color used with [`TextureWrap::Border`].
#[derive(Debug, Clone, Copy, PartialEq, Eq, Structural)]
pub enum TextureBorder {
    /// Transparent (0, 0, 0, 0).
    Transparent,
    /// Opaque black (0, 0, 0, 1).
    Black,
    /// Opaque white (1, 1, 1, 1).
    White,
}

/// A rectangular region of pixels.
#[derive(Debug, Clone, Copy, PartialEq, Eq, Structural)]
pub struct TextureBounds {
    /// The X coordinate of the top-left corner.
    pub x: u32,
    /// The Y coordinate of the top-left corner.
    pub y: u32,
    /// The width of the region in pixels.
    pub width: u32,
    /// The height of the region in pixels.
    pub height: u32,
}

/// The layout of a texture, used for creating a texture with the desired specifications.
#[derive(Debug, Clone, Copy)]
pub struct TextureLayout {
    /// The width of the texture in pixels.
    pub width: u32,
    /// The height of the texture in pixels.
    pub height: u32,
    /// The format of each pixel.
    pub format: TextureFormat,
    /// Filtering mode when minifying.
    pub filter_min: TextureFilter,
    /// Filtering mode when magnifying.
    pub filter_mag: TextureFilter,
    /// Wrapping mode along X.
    pub wrap_x: TextureWrap,
    /// Wrapping mode along Y.
    pub wrap_y: TextureWrap,
    /// Border color used with [`TextureWrap::Border`].
    pub wrap_border: TextureBorder,
}

impl TextureFormat {
    /// The size in bytes of one pixel of this format.
    pub open spec fn pixel_size(self) -> nat {
        match self {
            TextureFormat::R8 => 1,
            TextureFormat::RGBA8 => 4,
            TextureFormat::BGRA8 => 4,
            TextureFormat::R8S => 1,
            TextureFormat::R16S => 2,
            TextureFormat::R32F => 4,
            TextureFormat::RG32F => 8,
        }
    }

    /// Returns the number of bytes per pixel for this texture format.
    pub fn bytes_per_pixel(&self) -> (r: u32)
        ensures
            r == self.pixel_size(),
    {
        match self {
            TextureFormat::R8 => 1,
            TextureFormat::RGBA8 => 4,
            TextureFormat::BGRA8 => 4,
            TextureFormat::R8S => 1,
            TextureFormat::R16S => 2,
            TextureFormat::R32F => 4,
            TextureFormat::RG32F => 8,
        }
    }
}

impl TextureLayout {
    /// Creates a texture layout with the given size and format, nearest filtering, and
    /// border wrapping with a transparent border.
    pub fn new(width: u32, height: u32, format: TextureFormat) -> (r: Self)
        ensures
            r.width == width,
            r.height == height,
            r.format == format,
            r.filter_min == TextureFilter::Nearest,
            r.filter_mag == TextureFilter::Nearest,
            r.wrap_x == TextureWrap::Border,
            r.wrap_y == TextureWrap::Border,
            r.wrap_border == TextureBorder::Transparent,
    {
        TextureLayout {
            width,
            height,
            format,
            filter_min: TextureFilter::Nearest,
            filter_mag: TextureFilter::Nearest,
            wrap_x: TextureWrap::Border,
            wrap_y: TextureWrap::Border,
            wrap_border: TextureBorder::Transparent,
        }
    }

    /// Sets both filtering modes; every other field is kept.
    pub fn with_filter(self, filter_min: TextureFilter, filter_mag: TextureFilter) -> (r: Self)
        ensures
            r == (TextureLayout { filter_min, filter_mag, ..self }),
    {
        let mut s = self;
        s.filter_min = filter_min;
        s.filter_mag = filter_mag;
        s
    }

    /// Sets both wrapping modes; every other field is kept.
    pub fn with_wrap(self, wrap_x: TextureWrap, wrap_y: TextureWrap) -> (r: Self)
        ensures
            r == (TextureLayout { wrap_x, wrap_y, ..self }),
    {
        let mut s = self;
        s.wrap_x = wrap_x;
        s.wrap_y = wrap_y;
        s
    }

    /// Sets the border color; every other field is kept.
    pub fn with_border(self, wrap_border: TextureBorder) -> (r: Self)
        ensures
            r == (TextureLayout { wrap_border, ..self }),
    {
        let mut s = self;
        s.wrap_border = wrap_border;
        s
    }
}

} // verus!
