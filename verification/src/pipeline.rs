use vstd::prelude::*;
use crate::shader::Shader;
use crate::texture::TextureFormat;

verus! {

/// A comparison function used by depth and stencil tests.
#[derive(Debug, Clone, Copy, PartialEq, Eq, Structural)]
pub enum CompareFn {
    /// Always false.
    Never,
    /// Less than.
    Less,
    /// Equal to.
    Equal,
    /// Less than or equal to.
    LessEqual,
    /// Greater than.
    Greater,
    /// Not equal to.
    NotEqual,
    /// Greater than or equal to.
    GreaterEqual,
    /// Always true.
    Always,
}

/// How the stencil value is updated after a test.
#[derive(Debug, Clone, Copy, PartialEq, Eq, Structural)]
pub enum StencilOp {
    /// Do nothing.
    Keep,
    /// Set to zero.
    Zero,
    /// Set to the reference value.
    Replace,
    /// Bitwise inverse.
    Invert,
    /// Saturating increment.
    IncrementClamp,
    /// Saturating decrement.
    DecrementClamp,
    /// Wrapping increment.
    IncrementWrap,
    /// Wrapping decrement.
    DecrementWrap,
}

/// Stencil test and operations for one winding of triangles.
#[derive(Debug, Clone, Copy, PartialEq, Eq, Structural)]
pub struct StencilFace {
    /// Which bits of the stencil buffer take part in the test.
    pub mask: u8,
    /// The reference value of the test, also written by [`StencilOp::Replace`].
    pub reference: u8,
    /// The comparison of the test; the fragment is discarded when it fails.
    pub compare: CompareFn,
    /// What happens when the test passes.
    pub pass_op: StencilOp,
    /// What happens when the test fails.
    pub fail_op: StencilOp,
    /// What happens when the depth test fails.
    pub depth_fail_op: StencilOp,
}

/// A blend multiplier; see [`BlendMode`].
#[derive(Debug, Clone, Copy, PartialEq, Eq, Structural)]
pub enum BlendFactor {
    /// Zero.
    Zero,
    /// One.
    One,
    /// Source color.
    SrcColor,
    /// One minus source color.
    OneMinusSrcColor,
    /// Destination color.
    DstColor,
    /// One minus destination color.
    OneMinusDstColor,
    /// Source alpha.
    SrcAlpha,
    /// One minus source alpha.
    OneMinusSrcAlpha,
    /// Destination alpha.
    DstAlpha,
    /// One minus destination alpha.
    OneMinusDstAlpha,
}

/// A blend operation; see [`BlendMode`].
#[derive(Debug, Clone, Copy, PartialEq, Eq, Structural)]
pub enum BlendOp {
    /// Source plus destination.
    Add,
    /// Source minus destination.
    Subtract,
    /// Destination minus source.
    ReverseSubtract,
    /// Component-wise minimum.
    Min,
    /// Component-wise maximum.
    Max,
}

/// How the source and destination colors are blended:
/// `result = (src * src_factor) <op> (dst * dst_factor)`.
#[derive(Debug, Clone, Copy, PartialEq, Eq, Structural)]
pub struct BlendMode {
    /// Factor of the source color.
    pub color_src: BlendFactor,
    /// Factor of the destination color.
    pub color_dst: BlendFactor,
    /// Operation on the color channels.
    pub color_op: BlendOp,
    /// Factor of the source alpha.
    pub alpha_src: BlendFactor,
    /// Factor of the destination alpha.
    pub alpha_dst: BlendFactor,
    /// Operation on the alpha channel.
    pub alpha_op: BlendOp,
}

/// How the vertex order is read as triangles.
#[derive(Debug, Clone, Copy, PartialEq, Eq, Structural)]
pub enum PrimitiveTopology {
    /// Each group of 3 vertices is a triangle.
    TriangleList,
    /// Each vertex forms a triangle with the previous 2.
    TriangleStrip,
    /// Triangles that share the first vertex.
    TriangleFan,
}

/// The stencil face that disables stencil testing: an empty mask, an always passing
/// comparison and no updates.
pub open spec fn stencil_face_disabled() -> StencilFace {
    StencilFace {
        mask: 0,
        reference: 0,
        compare: CompareFn::Always,
        pass_op: StencilOp::Keep,
        fail_op: StencilOp::Keep,
        depth_fail_op: StencilOp::Keep,
    }
}

impl Default for StencilFace {
    /// The stencil face that disables stencil testing.
    fn default() -> (r: Self)
        ensures
            r == stencil_face_disabled(),
    {
        StencilFace {
            mask: 0x0,
            reference: 0,
            compare: CompareFn::Always,
            pass_op: StencilOp::Keep,
            fail_op: StencilOp::Keep,
            depth_fail_op: StencilOp::Keep,
        }
    }
}

impl BlendMode {
    /// Opaque blending: the source replaces the destination.
    pub open spec fn spec_overwrite() -> BlendMode {
        BlendMode {
            color_src: BlendFactor::One,
            color_dst: BlendFactor::Zero,
            color_op: BlendOp::Add,
            alpha_src: BlendFactor::One,
            alpha_dst: BlendFactor::Zero,
            alpha_op: BlendOp::Add,
        }
    }

    /// Opaque blending: the source replaces the destination.
    pub fn overwrite() -> (r: BlendMode)
        ensures
            r == Self::spec_overwrite(),
    {
        BlendMode {
            color_src: BlendFactor::One,
            color_dst: BlendFactor::Zero,
            color_op: BlendOp::Add,
            alpha_src: BlendFactor::One,
            alpha_dst: BlendFactor::Zero,
            alpha_op: BlendOp::Add,
        }
    }

    /// Discarding blend: the destination is kept.
    pub open spec fn spec_discard() -> BlendMode {
        BlendMode {
            color_src: BlendFactor::Zero,
            color_dst: BlendFactor::One,
            color_op: BlendOp::Add,
            alpha_src: BlendFactor::Zero,
            alpha_dst: BlendFactor::One,
            alpha_op: BlendOp::Add,
        }
    }

    /// Discarding blend: the destination is kept.
    pub fn discard() -> (r: BlendMode)
        ensures
            r == Self::spec_discard(),
    {
        BlendMode {
            color_src: BlendFactor::Zero,
            color_dst: BlendFactor::One,
            color_op: BlendOp::Add,
            alpha_src: BlendFactor::Zero,
            alpha_dst: BlendFactor::One,
            alpha_op: BlendOp::Add,
        }
    }

    /// Additive blending.
    pub open spec fn spec_additive() -> BlendMode {
        BlendMode {
            color_src: BlendFactor::One,
            color_dst: BlendFactor::One,
            color_op: BlendOp::Add,
            alpha_src: BlendFactor::One,
            alpha_dst: BlendFactor::One,
            alpha_op: BlendOp::Add,
        }
    }

    /// Additive blending.
    pub fn additive() -> (r: BlendMode)
        ensures
            r == Self::spec_additive(),
    {
        BlendMode {
            color_src: BlendFactor::One,
            color_dst: BlendFactor::One,
            color_op: BlendOp::Add,
            alpha_src: BlendFactor::One,
            alpha_dst: BlendFactor::One,
            alpha_op: BlendOp::Add,
        }
    }

    /// Simple alpha blending.
    pub open spec fn spec_alpha() -> BlendMode {
        BlendMode {
            color_src: BlendFactor::SrcAlpha,
            color_dst: BlendFactor::OneMinusSrcAlpha,
            color_op: BlendOp::Add,
            alpha_src: BlendFactor::One,
            alpha_dst: BlendFactor::OneMinusSrcAlpha,
            alpha_op: BlendOp::Add,
        }
    }

    /// Simple alpha blending.
    pub fn alpha() -> (r: BlendMode)
        ensures
            r == Self::spec_alpha(),
    {
        BlendMode {
            color_src: BlendFactor::SrcAlpha,
            color_dst: BlendFactor::OneMinusSrcAlpha,
            color_op: BlendOp::Add,
            alpha_src: BlendFactor::One,
            alpha_dst: BlendFactor::OneMinusSrcAlpha,
            alpha_op: BlendOp::Add,
        }
    }

    /// Premultiplied alpha blending.
    pub open spec fn spec_premul() -> BlendMode {
        BlendMode {
            color_src: BlendFactor::One,
            color_dst: BlendFactor::OneMinusSrcAlpha,
            color_op: BlendOp::Add,
            alpha_src: BlendFactor::One,
            alpha_dst: BlendFactor::OneMinusSrcAlpha,
            alpha_op: BlendOp::Add,
        }
    }

    /// Premultiplied alpha blending.
    pub fn premul() -> (r: BlendMode)
        ensures
            r == Self::spec_premul(),
    {
        BlendMode {
            color_src: BlendFactor::One,
            color_dst: BlendFactor::OneMinusSrcAlpha,
            color_op: BlendOp::Add,
            alpha_src: BlendFactor::One,
            alpha_dst: BlendFactor::OneMinusSrcAlpha,
            alpha_op: BlendOp::Add,
        }
    }
}


/// The layout of a graphics pipeline: its shader and the fixed-function state that
/// decides how vertices become pixels (topology, culling, depth and stencil tests,
/// blending).
#[derive(Debug, Clone)]
pub struct PipelineLayout<'a> {
    /// The vertex and fragment shader.
    pub shader: Shader<'a>,
    /// The formats of the color outputs.
    pub color_outputs: &'a [TextureFormat],
    /// How the fragment color is blended with the framebuffer color.
    pub color_blend: BlendMode,
    /// The depth test; fragments that fail it are discarded.
    pub depth_test: CompareFn,
    /// Whether the depth output is written to the depth buffer.
    pub depth_write: bool,
    /// Stencil test and operations for clockwise triangles.
    pub stencil_cw: StencilFace,
    /// Stencil test and operations for counter-clockwise triangles.
    pub stencil_ccw: StencilFace,
    /// Whether counter-clockwise triangles are discarded.
    pub cull_ccw: bool,
    /// Whether clockwise triangles are discarded.
    pub cull_cw: bool,
    /// How the vertices are read as triangles.
    pub topology: PrimitiveTopology,
}

impl<'a> PipelineLayout<'a> {
    /// Creates a pipeline layout for the shader: no color outputs, overwrite blending,
    /// no depth test or write, stencil testing disabled on both faces, no culling, and a
    /// triangle list.
    pub fn new(shader: Shader<'a>) -> (r: Self)
        ensures
            r.shader == shader,
            r.color_outputs@.len() == 0,
            r.color_blend == BlendMode::spec_overwrite(),
            r.depth_test == CompareFn::Always,
            !r.depth_write,
            r.stencil_ccw == stencil_face_disabled(),
            r.stencil_cw == stencil_face_disabled(),
            !r.cull_ccw,
            !r.cull_cw,
            r.topology == PrimitiveTopology::TriangleList,
    {
        PipelineLayout {
            shader,
            color_outputs: &[],
            color_blend: BlendMode::overwrite(),
            depth_test: CompareFn::Always,
            depth_write: false,
            stencil_ccw: StencilFace::default(),
            stencil_cw: StencilFace::default(),
            cull_ccw: false,
            cull_cw: false,
            topology: PrimitiveTopology::TriangleList,
        }
    }

    /// Sets the color output formats; every other field is kept.
    pub fn with_color_outputs(self, color_outputs: &'a [TextureFormat]) -> (r: Self)
        ensures
            r == (PipelineLayout { color_outputs, ..self }),
    {
        let mut s = self;
        s.color_outputs = color_outputs;
        s
    }

    /// Sets the color blending mode; every other field is kept.
    pub fn with_color_blend(self, blend: BlendMode) -> (r: Self)
        ensures
            r == (PipelineLayout { color_blend: blend, ..self }),
    {
        let mut s = self;
        s.color_blend = blend;
        s
    }

    /// Sets the depth test and the depth write flag; every other field is kept.
    pub fn with_depth(self, compare: CompareFn, write: bool) -> (r: Self)
        ensures
            r == (PipelineLayout { depth_test: compare, depth_write: write, ..self }),
    {
        let mut s = self;
        s.depth_test = compare;
        s.depth_write = write;
        s
    }

    /// Sets the stencil state of both faces; every other field is kept.
    pub fn with_stencil(self, stencil_cw: StencilFace, stencil_ccw: StencilFace) -> (r: Self)
        ensures
            r == (PipelineLayout { stencil_cw, stencil_ccw, ..self }),
    {
        let mut s = self;
        s.stencil_cw = stencil_cw;
        s.stencil_ccw = stencil_ccw;
        s
    }

    /// Sets culling of each winding; every other field is kept.
    pub fn with_culling(self, cull_ccw: bool, cull_cw: bool) -> (r: Self)
        ensures
            r == (PipelineLayout { cull_ccw, cull_cw, ..self }),
    {
        let mut s = self;
        s.cull_ccw = cull_ccw;
        s.cull_cw = cull_cw;
        s
    }

    /// Sets the primitive topology; every other field is kept.
    pub fn with_topology(self, topology: PrimitiveTopology) -> (r: Self)
        ensures
            r == (PipelineLayout { topology, ..self }),
    {
        let mut s = self;
        s.topology = topology;
        s
    }
}

} // verus!
