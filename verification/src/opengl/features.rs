use vstd::prelude::*;
use crate::buffer::BufferRole;
use crate::error::Capabilities;
use crate::shader::ShaderFormat;

verus! {

/// Extension that provides uniform buffers.
pub const EXT_UNIFORM_BUFFER_OBJECT: &'static str = "GL_ARB_uniform_buffer_object";
/// Extension that provides storage buffers.
pub const EXT_SHADER_STORAGE_BUFFER_OBJECT: &'static str = "GL_ARB_shader_storage_buffer_object";
/// Extension that provides elapsed-time queries and 64-bit query results.
pub const EXT_TIMER_QUERY: &'static str = "GL_ARB_timer_query";
/// Extension that provides multisampled framebuffers.
pub const EXT_FRAMEBUFFER_MULTISAMPLE: &'static str = "GL_EXT_framebuffer_multisample";
/// Extension that provides buffer invalidation.
pub const EXT_INVALIDATE_SUBDATA: &'static str = "GL_ARB_invalidate_subdata";
/// Extension that provides "any samples passed" occlusion queries.
pub const EXT_OCCLUSION_QUERY2: &'static str = "GL_ARB_occlusion_query2";
/// Extension that provides conservative occlusion queries.
pub const EXT_ES3_COMPATIBILITY: &'static str = "GL_ARB_ES3_compatibility";
/// Extension that provides fence sync objects.
pub const EXT_SYNC: &'static str = "GL_ARB_sync";
/// Extension that provides the debug message callback.
pub const EXT_DEBUG: &'static str = "GL_KHR_debug";

/// The version of an OpenGL or OpenGL ES context.
#[derive(Debug, Clone, Copy, PartialEq, Eq, Structural)]
pub struct GlVersion {
    /// Major version number.
    pub major: u32,
    /// Minor version number.
    pub minor: u32,
    /// Whether the context is OpenGL ES.
    pub is_embedded: bool,
}

/// Which of the extensions named by the `EXT_*` constants the context supports.
#[derive(Debug, Clone, Copy)]
pub struct GlExtensions {
    /// [`EXT_UNIFORM_BUFFER_OBJECT`].
    pub uniform_buffer_object: bool,
    /// [`EXT_SHADER_STORAGE_BUFFER_OBJECT`].
    pub shader_storage_buffer_object: bool,
    /// [`EXT_TIMER_QUERY`].
    pub timer_query: bool,
    /// [`EXT_FRAMEBUFFER_MULTISAMPLE`].
    pub framebuffer_multisample: bool,
    /// [`EXT_INVALIDATE_SUBDATA`].
    pub invalidate_subdata: bool,
    /// [`EXT_OCCLUSION_QUERY2`].
    pub occlusion_query2: bool,
    /// [`EXT_ES3_COMPATIBILITY`].
    pub es3_compatibility: bool,
    /// [`EXT_SYNC`].
    pub sync: bool,
    /// [`EXT_DEBUG`].
    pub debug: bool,
}

/// The optional features of a context, as its version and extensions provide them.
#[derive(Debug, Clone, Copy)]
pub struct FeatureSupport {
    /// Uniform buffers.
    pub uniform_buffers: bool,
    /// Storage buffers.
    pub storage_buffers: bool,
    /// Elapsed-time queries.
    pub query_time_elapsed: bool,
    /// Multisampled framebuffers.
    pub framebuffer_msaa: bool,
    /// Buffer invalidation.
    pub invalidate_buffer_sub_data: bool,
    /// Sample-count and primitive-count queries (desktop only: OpenGL ES has no
    /// sample-count query).
    pub query_samples_primitives: bool,
    /// "Any samples passed" occlusion queries.
    pub query_occlusion: bool,
    /// Conservative occlusion queries.
    pub query_occlusion_conservative: bool,
    /// 64-bit query results.
    pub query_u64_result: bool,
    /// The debug message callback.
    pub debug_callback: bool,
    /// Fence sync objects.
    pub fence_sync_objects: bool,
}

/// The integer parameters of a context that the features are computed from. A parameter
/// that belongs to an unsupported feature is not read and may hold any value.
#[derive(Debug, Clone, Copy)]
pub struct GlParameters {
    /// `MAX_TEXTURE_SIZE`.
    pub max_texture_size: i32,
    /// `MAX_RENDERBUFFER_SIZE`.
    pub max_renderbuffer_size: i32,
    /// `MAX_TEXTURE_IMAGE_UNITS`.
    pub max_texture_image_units: i32,
    /// `MAX_DRAW_BUFFERS`.
    pub max_draw_buffers: i32,
    /// `MAX_SAMPLES`, read when multisampling is supported.
    pub max_samples: i32,
    /// `MAX_UNIFORM_BLOCK_SIZE`, read when uniform buffers are supported.
    pub max_uniform_block_size: i32,
    /// `UNIFORM_BUFFER_OFFSET_ALIGNMENT`, read when uniform buffers are supported.
    pub uniform_buffer_offset_alignment: i32,
    /// `MAX_VERTEX_UNIFORM_BLOCKS`, read when uniform buffers are supported.
    pub max_vertex_uniform_blocks: i32,
    /// `MAX_FRAGMENT_UNIFORM_BLOCKS`, read when uniform buffers are supported.
    pub max_fragment_uniform_blocks: i32,
    /// `MAX_SHADER_STORAGE_BLOCK_SIZE`, read when storage buffers are supported.
    pub max_shader_storage_block_size: i32,
    /// `SHADER_STORAGE_BUFFER_OFFSET_ALIGNMENT`, read when storage buffers are supported.
    pub shader_storage_buffer_offset_alignment: i32,
    /// `MAX_VERTEX_SHADER_STORAGE_BLOCKS`, read when storage buffers are supported.
    pub max_vertex_shader_storage_blocks: i32,
    /// `MAX_FRAGMENT_SHADER_STORAGE_BLOCKS`, read when storage buffers are supported.
    pub max_fragment_shader_storage_blocks: i32,
}

/// The features and limits of an OpenGL context.
#[derive(Debug, Clone, Copy)]
pub struct Features {
    /// The version of the context.
    pub version: GlVersion,
    /// Uniform buffers are supported.
    pub uniform_buffers: bool,
    /// Storage buffers are supported.
    pub storage_buffers: bool,
    /// Elapsed-time queries are supported.
    pub query_time_elapsed: bool,
    /// Buffer invalidation is supported.
    pub invalidate_buffer_sub_data: bool,
    /// Sample-count and primitive-count queries are supported.
    pub query_samples_primitives: bool,
    /// "Any samples passed" occlusion queries are supported.
    pub query_occlusion: bool,
    /// Conservative occlusion queries are supported.
    pub query_occlusion_conservative: bool,
    /// Query results can be read as 64-bit values.
    pub query_u64_result: bool,
    /// The debug message callback is supported.
    pub debug_callback: bool,
    /// Fence sync objects are supported.
    pub fence_sync_objects: bool,
    /// Maximum width/height of a texture.
    pub max_texture_size: u32,
    /// Maximum width/height of a framebuffer.
    pub max_framebuffer_size: u32,
    /// Maximum MSAA sample count, 0 without multisampling.
    pub max_framebuffer_msaa: u32,
    /// Maximum number of color attachments.
    pub max_framebuffer_outputs: u32,
    /// Maximum size of a uniform buffer, 0 without uniform buffers.
    pub max_uniform_buffer_size: u32,
    /// Maximum size of a storage buffer, 0 without storage buffers.
    pub max_storage_buffer_size: u32,
    /// Maximum number of texture units.
    pub max_texture_image_units: u32,
    /// Maximum number of uniform buffer bindings, 0 without uniform buffers.
    pub max_uniform_buffer_bindings: u32,
    /// Maximum number of storage buffer bindings, 0 without storage buffers.
    pub max_storage_buffer_bindings: u32,
    /// Alignment of uniform buffer offsets, 1 without uniform buffers.
    pub uniform_buffer_offset_alignment: u32,
    /// Alignment of storage buffer offsets, 1 without storage buffers.
    pub storage_buffer_offset_alignment: u32,
}

impl GlVersion {
    /// The version is at least `major.minor`.
    pub open spec fn spec_at_least(self, major: u32, minor: u32) -> bool {
        self.major > major || (self.major == major && self.minor >= minor)
    }

    /// Whether the version is at least `major.minor`.
    pub fn at_least(&self, major: u32, minor: u32) -> (r: bool)
        ensures
            r == self.spec_at_least(major, minor),
    {
        self.major > major || (self.major == major && self.minor >= minor)
    }

    /// A desktop OpenGL version of at least `major.minor`.
    pub open spec fn desktop_at_least(self, major: u32, minor: u32) -> bool {
        !self.is_embedded && self.spec_at_least(major, minor)
    }

    /// An OpenGL ES version of at least `major.minor`.
    pub open spec fn embedded_at_least(self, major: u32, minor: u32) -> bool {
        self.is_embedded && self.spec_at_least(major, minor)
    }
}

/// The saturating `u32` value of a nonnegative integer.
pub open spec fn saturate_u32(x: int) -> int {
    if x > u32::MAX {
        u32::MAX as int
    } else {
        x
    }
}

impl FeatureSupport {
    /// The features that a context of this version with these extensions supports.
    pub open spec fn spec_detect(version: GlVersion, ext: GlExtensions) -> FeatureSupport {
        FeatureSupport {
            uniform_buffers: version.desktop_at_least(3, 1) || version.embedded_at_least(3, 0)
                || ext.uniform_buffer_object,
            storage_buffers: version.desktop_at_least(4, 3) || ext.shader_storage_buffer_object,
            query_time_elapsed: version.desktop_at_least(3, 3) || ext.timer_query,
            framebuffer_msaa: version.spec_at_least(3, 0) || ext.framebuffer_multisample,
            invalidate_buffer_sub_data: version.desktop_at_least(4, 3) || ext.invalidate_subdata,
            query_samples_primitives: version.desktop_at_least(3, 0),
            query_occlusion: version.desktop_at_least(3, 3) || version.embedded_at_least(3, 0)
                || ext.occlusion_query2,
            query_occlusion_conservative: version.desktop_at_least(4, 3)
                || version.embedded_at_least(3, 0) || ext.es3_compatibility,
            query_u64_result: version.desktop_at_least(3, 3) || ext.timer_query,
            debug_callback: version.desktop_at_least(4, 3) || version.embedded_at_least(3, 2)
                || ext.debug,
            fence_sync_objects: version.desktop_at_least(3, 2) || version.embedded_at_least(3, 0)
                || ext.sync,
        }
    }

    /// Detects the features of a context from its version and extensions.
    pub fn detect(version: GlVersion, ext: GlExtensions) -> (r: FeatureSupport)
        ensures
            r == Self::spec_detect(version, ext),
    {
        let desktop = !version.is_embedded;
        let embedded = version.is_embedded;
        FeatureSupport {
            uniform_buffers: desktop && version.at_least(3, 1) || embedded && version.at_least(3, 0)
                || ext.uniform_buffer_object,
            storage_buffers: desktop && version.at_least(4, 3) || ext.shader_storage_buffer_object,
            query_time_elapsed: desktop && version.at_least(3, 3) || ext.timer_query,
            framebuffer_msaa: version.at_least(3, 0) || ext.framebuffer_multisample,
            invalidate_buffer_sub_data: desktop && version.at_least(4, 3) || ext.invalidate_subdata,
            query_samples_primitives: desktop && version.at_least(3, 0),
            query_occlusion: desktop && version.at_least(3, 3) || embedded && version.at_least(3, 0)
                || ext.occlusion_query2,
            query_occlusion_conservative: desktop && version.at_least(4, 3) || embedded
                && version.at_least(3, 0) || ext.es3_compatibility,
            query_u64_result: desktop && version.at_least(3, 3) || ext.timer_query,
            debug_callback: desktop && version.at_least(4, 3) || embedded && version.at_least(3, 2)
                || ext.debug,
            fence_sync_objects: desktop && version.at_least(3, 2) || embedded && version.at_least(3, 0)
                || ext.sync,
        }
    }
}

/// The smaller of two parameters, each read as `u32`.
pub open spec fn min_param(a: i32, b: i32) -> u32 {
    if (a as u32) <= (b as u32) {
        a as u32
    } else {
        b as u32
    }
}

fn min_u32(a: u32, b: u32) -> (r: u32)
    ensures
        r == (if a <= b { a } else { b }),
{
    if a <= b {
        a
    } else {
        b
    }
}

impl Features {
    /// The features of a context of this version, with these extensions and parameters.
    pub open spec fn spec_from_context(version: GlVersion, ext: GlExtensions, params: GlParameters) -> Features {
        let s = FeatureSupport::spec_detect(version, ext);
        Features {
            version,
            uniform_buffers: s.uniform_buffers,
            storage_buffers: s.storage_buffers,
            query_time_elapsed: s.query_time_elapsed,
            invalidate_buffer_sub_data: s.invalidate_buffer_sub_data,
            query_samples_primitives: s.query_samples_primitives,
            query_occlusion: s.query_occlusion,
            query_occlusion_conservative: s.query_occlusion_conservative,
            query_u64_result: s.query_u64_result,
            debug_callback: s.debug_callback,
            fence_sync_objects: s.fence_sync_objects,
            max_texture_size: params.max_texture_size as u32,
            max_framebuffer_size: min_param(params.max_texture_size, params.max_renderbuffer_size),
            max_framebuffer_msaa: if s.framebuffer_msaa { params.max_samples as u32 } else { 0 },
            max_framebuffer_outputs: params.max_draw_buffers as u32,
            max_uniform_buffer_size: if s.uniform_buffers { params.max_uniform_block_size as u32 } else { 0 },
            max_storage_buffer_size: if s.storage_buffers {
                params.max_shader_storage_block_size as u32
            } else {
                0
            },
            max_texture_image_units: params.max_texture_image_units as u32,
            max_uniform_buffer_bindings: if s.uniform_buffers {
                min_param(params.max_vertex_uniform_blocks, params.max_fragment_uniform_blocks)
            } else {
                0
            },
            max_storage_buffer_bindings: if s.storage_buffers {
                min_param(params.max_vertex_shader_storage_blocks, params.max_fragment_shader_storage_blocks)
            } else {
                0
            },
            uniform_buffer_offset_alignment: if s.uniform_buffers {
                params.uniform_buffer_offset_alignment as u32
            } else {
                1
            },
            storage_buffer_offset_alignment: if s.storage_buffers {
                params.shader_storage_buffer_offset_alignment as u32
            } else {
                1
            },
        }
    }

    /// Computes the features of a context from its version, its extensions and its
    /// parameters; `None` for a context older than version 3.0, which the backend does
    /// not support. Parameters are read as `u32` bit patterns; the limits of an
    /// unsupported buffer kind are 0, its alignment 1, and without multisampling the
    /// sample limit is 0.
    pub fn from_context(version: GlVersion, ext: GlExtensions, params: GlParameters) -> (r: Option<Features>)
        ensures
            r == (if version.spec_at_least(3, 0) {
                Some(Self::spec_from_context(version, ext, params))
            } else {
                None
            }),
    {
        if !version.at_least(3, 0) {
            return None;
        }
        let s = FeatureSupport::detect(version, ext);
        let max_texture_size = params.max_texture_size as u32;
        let max_renderbuffer_size = params.max_renderbuffer_size as u32;
        Some(Features {
            version,
            uniform_buffers: s.uniform_buffers,
            storage_buffers: s.storage_buffers,
            query_time_elapsed: s.query_time_elapsed,
            invalidate_buffer_sub_data: s.invalidate_buffer_sub_data,
            query_samples_primitives: s.query_samples_primitives,
            query_occlusion: s.query_occlusion,
            query_occlusion_conservative: s.query_occlusion_conservative,
            query_u64_result: s.query_u64_result,
            debug_callback: s.debug_callback,
            fence_sync_objects: s.fence_sync_objects,
            max_texture_size,
            max_framebuffer_size: min_u32(max_texture_size, max_renderbuffer_size),
            max_framebuffer_msaa: if s.framebuffer_msaa { params.max_samples as u32 } else { 0 },
            max_framebuffer_outputs: params.max_draw_buffers as u32,
            max_uniform_buffer_size: if s.uniform_buffers { params.max_uniform_block_size as u32 } else { 0 },
            max_storage_buffer_size: if s.storage_buffers {
                params.max_shader_storage_block_size as u32
            } else {
                0
            },
            max_texture_image_units: params.max_texture_image_units as u32,
            max_uniform_buffer_bindings: if s.uniform_buffers {
                min_u32(params.max_vertex_uniform_blocks as u32, params.max_fragment_uniform_blocks as u32)
            } else {
                0
            },
            max_storage_buffer_bindings: if s.storage_buffers {
                min_u32(
                    params.max_vertex_shader_storage_blocks as u32,
                    params.max_fragment_shader_storage_blocks as u32,
                )
            } else {
                0
            },
            uniform_buffer_offset_alignment: if s.uniform_buffers {
                params.uniform_buffer_offset_alignment as u32
            } else {
                1
            },
            storage_buffer_offset_alignment: if s.storage_buffers {
                params.shader_storage_buffer_offset_alignment as u32
            } else {
                1
            },
        })
    }

    /// The largest capacity of a buffer with the given role; 0 when the role is not
    /// supported. Staging buffers are only limited by the largest size that the OpenGL
    /// calls take (`i32::MAX`).
    pub open spec fn spec_max_buffer_size(self, role: BufferRole) -> u32 {
        match role {
            BufferRole::Uniform => self.max_uniform_buffer_size,
            BufferRole::Storage => self.max_storage_buffer_size,
            BufferRole::Staging => 0x7fff_ffff,
        }
    }

    /// Returns the largest capacity of a buffer with the given role.
    pub fn max_buffer_size(&self, role: BufferRole) -> (r: u32)
        ensures
            r == self.spec_max_buffer_size(role),
    {
        match role {
            BufferRole::Uniform => self.max_uniform_buffer_size,
            BufferRole::Storage => self.max_storage_buffer_size,
            BufferRole::Staging => 0x7fff_ffff,
        }
    }

    /// The alignment of offsets into a buffer with the given role.
    pub open spec fn spec_buffer_alignment(self, role: BufferRole) -> u32 {
        match role {
            BufferRole::Uniform => self.uniform_buffer_offset_alignment,
            BufferRole::Storage => self.storage_buffer_offset_alignment,
            BufferRole::Staging => 1,
        }
    }

    /// Returns the alignment of offsets into a buffer with the given role.
    pub fn buffer_alignment(&self, role: BufferRole) -> (r: u32)
        ensures
            r == self.spec_buffer_alignment(role),
    {
        match role {
            BufferRole::Uniform => self.uniform_buffer_offset_alignment,
            BufferRole::Storage => self.storage_buffer_offset_alignment,
            BufferRole::Staging => 1,
        }
    }

    /// The GLSL version that belongs to the context version: GLSL ES 1.00 for OpenGL ES 2,
    /// GLSL ES `major * 100 + minor * 10` from OpenGL ES 3 on; GLSL 1.10, 1.20, 1.30,
    /// 1.40 and 1.50 for OpenGL 2.0 to 3.2, and `major * 100 + minor * 10` from OpenGL
    /// 3.3 on (saturating at `u32::MAX`).
    pub open spec fn spec_glsl_version(self) -> ShaderFormat {
        let v = self.version;
        let numbered = saturate_u32(saturate_u32(v.major * 100) + saturate_u32(v.minor * 10)) as u32;
        if v.is_embedded {
            if v.major < 3 {
                ShaderFormat::Gles(100)
            } else {
                ShaderFormat::Gles(numbered)
            }
        } else if v.major < 2 {
            ShaderFormat::Glsl(110)
        } else if v.major == 2 {
            if v.minor == 0 {
                ShaderFormat::Glsl(110)
            } else {
                ShaderFormat::Glsl(120)
            }
        } else if v.major == 3 && v.minor < 3 {
            ShaderFormat::Glsl((130 + v.minor * 10) as u32)
        } else {
            ShaderFormat::Glsl(numbered)
        }
    }

    /// Returns the shader format of the context.
    pub fn glsl_version(&self) -> (r: ShaderFormat)
        ensures
            r == self.spec_glsl_version(),
    {
        let v = self.version;
        let wide = v.major as u64 * 100 + v.minor as u64 * 10;
        let numbered: u32 = if wide > u32::MAX as u64 { u32::MAX } else { wide as u32 };
        if v.is_embedded {
            if v.major < 3 {
                ShaderFormat::Gles(100)
            } else {
                ShaderFormat::Gles(numbered)
            }
        } else if v.major < 2 {
            ShaderFormat::Glsl(110)
        } else if v.major == 2 {
            if v.minor == 0 {
                ShaderFormat::Glsl(110)
            } else {
                ShaderFormat::Glsl(120)
            }
        } else if v.major == 3 && v.minor < 3 {
            ShaderFormat::Glsl(130 + v.minor * 10)
        } else {
            ShaderFormat::Glsl(numbered)
        }
    }

    /// The capabilities that a context with these features reports.
    pub open spec fn spec_capabilities(self) -> Capabilities {
        Capabilities {
            shader_format: self.spec_glsl_version(),
            texture_size: self.max_texture_size,
            texture_bindings: self.max_texture_image_units,
            framebuffer_size: self.max_framebuffer_size,
            framebuffer_msaa: self.max_framebuffer_msaa,
            framebuffer_outputs: self.max_framebuffer_outputs,
            uniform_buffer_size: self.max_uniform_buffer_size as u64,
            storage_buffer_size: self.max_storage_buffer_size as u64,
            uniform_buffer_alignment: self.uniform_buffer_offset_alignment,
            storage_buffer_alignment: self.storage_buffer_offset_alignment,
            uniform_buffer_bindings: self.max_uniform_buffer_bindings,
            storage_buffer_bindings: self.max_storage_buffer_bindings,
        }
    }

    /// Returns the capabilities that a context with these features reports.
    pub fn capabilities(&self) -> (r: Capabilities)
        ensures
            r == self.spec_capabilities(),
    {
        Capabilities {
            shader_format: self.glsl_version(),
            texture_size: self.max_texture_size,
            texture_bindings: self.max_texture_image_units,
            framebuffer_size: self.max_framebuffer_size,
            framebuffer_msaa: self.max_framebuffer_msaa,
            framebuffer_outputs: self.max_framebuffer_outputs,
            uniform_buffer_size: self.max_uniform_buffer_size as u64,
            storage_buffer_size: self.max_storage_buffer_size as u64,
            uniform_buffer_alignment: self.uniform_buffer_offset_alignment,
            storage_buffer_alignment: self.storage_buffer_offset_alignment,
            uniform_buffer_bindings: self.max_uniform_buffer_bindings,
            storage_buffer_bindings: self.max_storage_buffer_bindings,
        }
    }
}


/// A context of the given kind (OpenGL ES when `embedded`, desktop OpenGL otherwise) at
/// version `major.minor` or later.
pub open spec fn kind_at_least(version: GlVersion, embedded: bool, major: u32, minor: u32) -> bool {
    version.is_embedded == embedded && (version.major > major || (version.major == major && version.minor
        >= minor))
}

/// `m` is the smaller of `a` and `b`.
pub open spec fn is_min_of(m: u32, a: u32, b: u32) -> bool {
    m <= a && m <= b && (m == a || m == b)
}

/// Law: a context has a feature exactly when its version has it in core or it has the
/// extension that provides it. Uniform buffers: OpenGL 3.1, ES 3.0; storage buffers,
/// buffer invalidation: OpenGL 4.3; elapsed-time queries and 64-bit results: OpenGL 3.3;
/// multisampling: 3.0 of either; sample and primitive counts: OpenGL 3.0 only; "any
/// samples" occlusion: OpenGL 3.3, ES 3.0; conservative occlusion: OpenGL 4.3, ES 3.0;
/// debug output: OpenGL 4.3, ES 3.2; fences: OpenGL 3.2, ES 3.0.
pub proof fn law_features_follow_version_and_extensions(version: GlVersion, ext: GlExtensions)
    ensures
        ({
            let s = FeatureSupport::spec_detect(version, ext);
            &&& s.uniform_buffers == (kind_at_least(version, false, 3, 1) || kind_at_least(version, true, 3, 0)
                || ext.uniform_buffer_object)
            &&& s.storage_buffers == (kind_at_least(version, false, 4, 3) || ext.shader_storage_buffer_object)
            &&& s.query_time_elapsed == (kind_at_least(version, false, 3, 3) || ext.timer_query)
            &&& s.query_u64_result == (kind_at_least(version, false, 3, 3) || ext.timer_query)
            &&& s.framebuffer_msaa == (kind_at_least(version, false, 3, 0) || kind_at_least(version, true, 3, 0)
                || ext.framebuffer_multisample)
            &&& s.invalidate_buffer_sub_data == (kind_at_least(version, false, 4, 3) || ext.invalidate_subdata)
            &&& s.query_samples_primitives == kind_at_least(version, false, 3, 0)
            &&& s.query_occlusion == (kind_at_least(version, false, 3, 3) || kind_at_least(version, true, 3, 0)
                || ext.occlusion_query2)
            &&& s.query_occlusion_conservative == (kind_at_least(version, false, 4, 3) || kind_at_least(
                version,
                true,
                3,
                0,
            ) || ext.es3_compatibility)
            &&& s.debug_callback == (kind_at_least(version, false, 4, 3) || kind_at_least(version, true, 3, 2)
                || ext.debug)
            &&& s.fence_sync_objects == (kind_at_least(version, false, 3, 2) || kind_at_least(version, true, 3, 0)
                || ext.sync)
        }),
{
}

/// Law: the features of a context carry its detected features, and its limits are read
/// from its parameters: the framebuffer size is the smaller of the texture and
/// renderbuffer sizes; the number of uniform (storage) buffer bindings is the smaller of
/// the vertex and fragment stage limits; a buffer kind that the context lacks has size
/// and bindings 0 and alignment 1.
pub proof fn law_context_limits(version: GlVersion, ext: GlExtensions, params: GlParameters)
    requires
        version.spec_at_least(3, 0),
    ensures
        ({
            let f = Features::spec_from_context(version, ext, params);
            let s = FeatureSupport::spec_detect(version, ext);
            &&& f.version == version
            &&& f.uniform_buffers == s.uniform_buffers && f.storage_buffers == s.storage_buffers
            &&& f.query_time_elapsed == s.query_time_elapsed && f.query_u64_result == s.query_u64_result
            &&& f.invalidate_buffer_sub_data == s.invalidate_buffer_sub_data
            &&& f.query_samples_primitives == s.query_samples_primitives && f.query_occlusion
                == s.query_occlusion && f.query_occlusion_conservative == s.query_occlusion_conservative
            &&& f.debug_callback == s.debug_callback && f.fence_sync_objects == s.fence_sync_objects
            &&& f.max_texture_size == params.max_texture_size as u32
            &&& is_min_of(f.max_framebuffer_size, params.max_texture_size as u32, params.max_renderbuffer_size as u32)
            &&& f.max_framebuffer_msaa == params.max_samples as u32
            &&& f.max_framebuffer_outputs == params.max_draw_buffers as u32
            &&& f.max_texture_image_units == params.max_texture_image_units as u32
            &&& f.uniform_buffers ==> f.max_uniform_buffer_size == params.max_uniform_block_size as u32
                && f.uniform_buffer_offset_alignment == params.uniform_buffer_offset_alignment as u32 && is_min_of(
                f.max_uniform_buffer_bindings,
                params.max_vertex_uniform_blocks as u32,
                params.max_fragment_uniform_blocks as u32,
            )
            &&& !f.uniform_buffers ==> f.max_uniform_buffer_size == 0 && f.max_uniform_buffer_bindings == 0
                && f.uniform_buffer_offset_alignment == 1
            &&& f.storage_buffers ==> f.max_storage_buffer_size == params.max_shader_storage_block_size as u32
                && f.storage_buffer_offset_alignment == params.shader_storage_buffer_offset_alignment as u32
                && is_min_of(
                f.max_storage_buffer_bindings,
                params.max_vertex_shader_storage_blocks as u32,
                params.max_fragment_shader_storage_blocks as u32,
            )
            &&& !f.storage_buffers ==> f.max_storage_buffer_size == 0 && f.max_storage_buffer_bindings == 0
                && f.storage_buffer_offset_alignment == 1
        }),
{
}


/// Law: the shading language of a context follows its version: GLSL ES 1.00 before
/// OpenGL ES 3 and GLSL ES `major.minor` from it; GLSL 1.10 up to OpenGL 2.0, 1.20 for
/// OpenGL 2.1 and later 2.x, 1.30 to 1.50 for OpenGL 3.0 to 3.2, and GLSL `major.minor`
/// from OpenGL 3.3 on (as `major * 100 + minor * 10`, when that fits a `u32`).
pub proof fn law_glsl_follows_version(features: Features)
    ensures
        ({
            let v = features.version;
            let numbered = v.major * 100 + v.minor * 10;
            let f = features.spec_glsl_version();
            &&& v.is_embedded && v.major < 3 ==> f == ShaderFormat::Gles(100)
            &&& v.is_embedded && v.major >= 3 && numbered <= u32::MAX ==> f == ShaderFormat::Gles(numbered as u32)
            &&& !v.is_embedded && (v.major < 2 || (v.major == 2 && v.minor == 0)) ==> f == ShaderFormat::Glsl(110)
            &&& !v.is_embedded && v.major == 2 && v.minor >= 1 ==> f == ShaderFormat::Glsl(120)
            &&& !v.is_embedded && v.major == 3 && v.minor < 3 ==> f == ShaderFormat::Glsl((130 + 10 * v.minor) as u32)
            &&& !v.is_embedded && (v.major > 3 || (v.major == 3 && v.minor >= 3)) && numbered <= u32::MAX ==> f
                == ShaderFormat::Glsl(numbered as u32)
        }),
{
}

/// Law: the capabilities that a context reports are its shading language and its limits.
pub proof fn law_capabilities_report_limits(features: Features)
    ensures
        ({
            let c = features.spec_capabilities();
            &&& c.shader_format == features.spec_glsl_version()
            &&& c.texture_size == features.max_texture_size
            &&& c.texture_bindings == features.max_texture_image_units
            &&& c.framebuffer_size == features.max_framebuffer_size
            &&& c.framebuffer_msaa == features.max_framebuffer_msaa
            &&& c.framebuffer_outputs == features.max_framebuffer_outputs
            &&& c.uniform_buffer_size == features.max_uniform_buffer_size
            &&& c.storage_buffer_size == features.max_storage_buffer_size
            &&& c.uniform_buffer_alignment == features.uniform_buffer_offset_alignment
            &&& c.storage_buffer_alignment == features.storage_buffer_offset_alignment
            &&& c.uniform_buffer_bindings == features.max_uniform_buffer_bindings
            &&& c.storage_buffer_bindings == features.max_storage_buffer_bindings
        }),
{
}

} // verus!
