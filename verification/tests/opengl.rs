use picogpu::opengl::bindings::{
    bindings_owned, plan_draw_bindings, prepare_pipeline_bindings, resolve_binding, BindAction, BindingDesc, BindingProbe,
    ProgramBinding,
};
use picogpu::opengl::features::{FeatureSupport, Features, GlExtensions, GlParameters, GlVersion};
use picogpu::opengl::program::{build_outcome, glsl_source, should_link};
use picogpu::opengl::queries::{read_owned_step, read_step, QueryState, QueryTracker, ReadStep};
use picogpu::opengl::resources::{
    attachment_storage, depth_stencil_kind, AttachmentStorage, BufferDesc, ColorAttachmentDesc, CopyRegion, DepthStencilDesc, DepthStencilKind,
    FramebufferDesc, ReadSource, ReadbackPlan, TextureDesc, UploadPlan,
};
use picogpu::opengl::state::RenderCache;
use picogpu::opengl::surface::{
    address_usable, debug_message_kind, DebugMessage, SurfaceError, DEBUG_TYPE_DEPRECATED_BEHAVIOR, DEBUG_TYPE_ERROR,
    DEBUG_TYPE_MARKER, DEBUG_TYPE_PERFORMANCE, DEBUG_TYPE_PORTABILITY, DEBUG_TYPE_UNDEFINED_BEHAVIOR,
};
use picogpu::ownership::check_owner;
use picogpu::opengl::sync::{present_fence, wait_owned_plan, wait_plan, wait_result, WaitOutcome, WaitPlan};
use picogpu::raster::{cull_face, CullFace, RasterPlan};
use picogpu::vulkan::program::spirv_source;
use picogpu::{
    BlendMode, BufferLayout, BufferRole, CompareFn, CompileStage, DepthFormat, Error, FramebufferAttachment,
    FramebufferLayout, OcclusionTest, PipelineLayout, PrimitiveTopology, QueryType, Shader, ShaderFormat,
    ShaderGlsl, ShaderSpirV, StencilFace, StencilFormat, TextureBounds, TextureFormat, TextureLayout,
};

/// The context that the resources of these tests belong to.
const CTX: u64 = 1;

fn no_extensions() -> GlExtensions {
    GlExtensions {
        uniform_buffer_object: false,
        shader_storage_buffer_object: false,
        timer_query: false,
        framebuffer_multisample: false,
        invalidate_subdata: false,
        occlusion_query2: false,
        es3_compatibility: false,
        sync: false,
        debug: false,
    }
}

fn parameters() -> GlParameters {
    GlParameters {
        max_texture_size: 4096,
        max_renderbuffer_size: 2048,
        max_texture_image_units: 2,
        max_draw_buffers: 4,
        max_samples: 8,
        max_uniform_block_size: 1024,
        uniform_buffer_offset_alignment: 256,
        max_vertex_uniform_blocks: 3,
        max_fragment_uniform_blocks: 1,
        max_shader_storage_block_size: 65536,
        shader_storage_buffer_offset_alignment: 16,
        max_vertex_shader_storage_blocks: 8,
        max_fragment_shader_storage_blocks: 8,
    }
}

fn gl(major: u32, minor: u32) -> Features {
    Features::from_context(GlVersion { major, minor, is_embedded: false }, no_extensions(), parameters()).unwrap()
}

fn uniform(capacity: u32) -> BufferDesc {
    BufferDesc { owner: CTX, id: 1, role: BufferRole::Uniform, capacity, can_upload: true, can_download: true }
}

fn staging(id: u32, capacity: u32) -> BufferDesc {
    BufferDesc { owner: CTX, id, role: BufferRole::Staging, capacity, can_upload: true, can_download: false }
}

#[test]
fn features_of_opengl_4_5() {
    let f = gl(4, 5);
    assert!(f.uniform_buffers && f.storage_buffers && f.query_time_elapsed);
    assert!(f.query_occlusion && f.query_occlusion_conservative && f.debug_callback && f.fence_sync_objects);
    assert_eq!(f.max_texture_size, 4096);
    assert_eq!(f.max_framebuffer_size, 2048);
    assert_eq!(f.max_framebuffer_msaa, 8);
    assert_eq!(f.max_framebuffer_outputs, 4);
    assert_eq!(f.max_uniform_buffer_size, 1024);
    assert_eq!(f.max_uniform_buffer_bindings, 1);
    assert_eq!(f.max_storage_buffer_bindings, 8);
    assert_eq!(f.uniform_buffer_offset_alignment, 256);
    assert_eq!(f.glsl_version(), ShaderFormat::Glsl(450));
}

#[test]
fn features_of_opengl_3_0() {
    let f = gl(3, 0);
    assert!(!f.uniform_buffers && !f.storage_buffers && !f.query_time_elapsed);
    assert_eq!(f.max_uniform_buffer_size, 0);
    assert_eq!(f.max_storage_buffer_size, 0);
    assert_eq!(f.max_uniform_buffer_bindings, 0);
    assert_eq!(f.uniform_buffer_offset_alignment, 1);
    assert_eq!(f.storage_buffer_offset_alignment, 1);
    assert_eq!(f.max_framebuffer_msaa, 8);
    assert_eq!(f.glsl_version(), ShaderFormat::Glsl(130));
    assert_eq!(gl(3, 2).glsl_version(), ShaderFormat::Glsl(150));
}

#[test]
fn features_from_extensions_and_es() {
    let ext = GlExtensions { uniform_buffer_object: true, ..no_extensions() };
    let f = Features::from_context(GlVersion { major: 3, minor: 0, is_embedded: false }, ext, parameters()).unwrap();
    assert!(f.uniform_buffers);
    assert_eq!(f.max_uniform_buffer_size, 1024);

    let es = Features::from_context(GlVersion { major: 3, minor: 0, is_embedded: true }, no_extensions(), parameters())
        .unwrap();
    assert!(es.uniform_buffers && !es.storage_buffers);
    assert_eq!(es.glsl_version(), ShaderFormat::Gles(300));

    assert!(Features::from_context(GlVersion { major: 2, minor: 1, is_embedded: false }, no_extensions(), parameters())
        .is_none());

    let support = FeatureSupport::detect(GlVersion { major: 2, minor: 0, is_embedded: true }, no_extensions());
    assert!(!support.uniform_buffers && !support.framebuffer_msaa);
}

#[test]
fn capabilities_follow_features() {
    let f = gl(4, 3);
    let caps = f.capabilities();
    assert_eq!(caps.shader_format, ShaderFormat::Glsl(430));
    assert_eq!(caps.texture_size, 4096);
    assert_eq!(caps.texture_bindings, 2);
    assert_eq!(caps.framebuffer_size, 2048);
    assert_eq!(caps.framebuffer_outputs, 4);
    assert_eq!(caps.uniform_buffer_size, 1024);
    assert_eq!(caps.storage_buffer_size, 65536);
    assert_eq!(caps.uniform_buffer_alignment, 256);
    assert_eq!(caps.storage_buffer_alignment, 16);
}

#[test]
fn buffer_limits_per_role() {
    let f = gl(4, 5);
    assert_eq!(f.max_buffer_size(BufferRole::Uniform), 1024);
    assert_eq!(f.max_buffer_size(BufferRole::Storage), 65536);
    assert_eq!(f.max_buffer_size(BufferRole::Staging), i32::MAX as u32);
    assert_eq!(f.buffer_alignment(BufferRole::Uniform), 256);
    assert_eq!(f.buffer_alignment(BufferRole::Storage), 16);
    assert_eq!(f.buffer_alignment(BufferRole::Staging), 1);
}

#[test]
fn create_buffer_checks() {
    let f = gl(4, 5);
    assert!(matches!(f.check_buffer(BufferLayout::new(BufferRole::Uniform, 1024)), Ok(1024)));
    assert!(matches!(f.check_buffer(BufferLayout::new(BufferRole::Uniform, 1025)), Err(Error::UnsupportedSize)));
    assert!(matches!(
        f.check_buffer(BufferLayout::new(BufferRole::Staging, 1 << 33)),
        Err(Error::UnsupportedSize)
    ));
    assert!(matches!(
        f.check_buffer(BufferLayout::new(BufferRole::Staging, 1 << 31)),
        Err(Error::UnsupportedSize)
    ));
    assert!(matches!(f.check_buffer(BufferLayout::new(BufferRole::Staging, (1 << 31) - 1)), Ok(0x7fff_ffff)));
    assert!(matches!(
        gl(3, 0).check_buffer(BufferLayout::new(BufferRole::Storage, 4)),
        Err(Error::UnsupportedFeature)
    ));
}

#[test]
fn create_texture_and_framebuffer_checks() {
    let f = gl(4, 5);
    let ok = f.check_texture(CTX, &TextureLayout::new(4096, 16, TextureFormat::R8)).unwrap();
    assert_eq!(ok, TextureDesc { owner: CTX, width: 4096, height: 16, format: TextureFormat::R8 });
    assert!(matches!(
        f.check_texture(CTX, &TextureLayout::new(16, 4097, TextureFormat::R8)),
        Err(Error::UnsupportedSize)
    ));

    let colors = [TextureFormat::RGBA8; 5];
    let layout = FramebufferLayout {
        width: 2048,
        height: 10,
        color: &colors[..4],
        depth: Some(DepthFormat::D24),
        stencil: None,
        msaa_samples: 8,
        is_persistent: false,
        is_color_bindable: true,
        is_depth_bindable: false,
    };
    assert!(f.check_framebuffer(&layout).is_ok());
    assert!(matches!(f.check_framebuffer(&FramebufferLayout { width: 2049, ..layout }), Err(Error::UnsupportedSize)));
    assert!(matches!(
        f.check_framebuffer(&FramebufferLayout { msaa_samples: 9, ..layout }),
        Err(Error::UnsupportedFormat)
    ));
    assert!(matches!(
        f.check_framebuffer(&FramebufferLayout { color: &colors, ..layout }),
        Err(Error::UnsupportedFormat)
    ));
    assert_eq!(depth_stencil_kind(Some(DepthFormat::D24), Some(StencilFormat::S8)), Some(DepthStencilKind::DepthStencil));
    assert_eq!(depth_stencil_kind(None, Some(StencilFormat::S8)), Some(DepthStencilKind::Stencil));
    assert_eq!(depth_stencil_kind(Some(DepthFormat::D32F), None), Some(DepthStencilKind::Depth));
    assert_eq!(depth_stencil_kind(None, None), None);
}

#[test]
fn upload_and_download_checks() {
    let f = gl(4, 5);
    let b = uniform(1024);
    assert_eq!(f.check_upload(&b, 0, 1024).unwrap(), UploadPlan::Replace);
    assert_eq!(f.check_upload(&b, 256, 512).unwrap(), UploadPlan::Update(256));
    assert_eq!(f.check_upload(&b, 0, 16).unwrap(), UploadPlan::Update(0));
    assert!(matches!(f.check_upload(&b, 128, 16), Err(Error::InvalidBounds)));
    assert!(matches!(f.check_upload(&b, 768, 512), Err(Error::InvalidBounds)));
    assert!(matches!(f.check_upload(&b, 1 << 32, 0), Err(Error::InvalidBounds)));
    let locked = BufferDesc { can_upload: false, can_download: false, ..b };
    assert!(matches!(f.check_upload(&locked, 0, 4), Err(Error::InvalidOperation)));
    assert!(matches!(f.check_download(&locked, 0, 4), Err(Error::InvalidOperation)));
    assert_eq!(f.check_download(&b, 512, 512).unwrap(), 512);
    assert!(matches!(f.check_download(&b, 512, 513), Err(Error::InvalidBounds)));
}

#[test]
fn copy_between_buffers() {
    let f = gl(4, 5);
    let a = staging(1, 100);
    let b = staging(2, 50);
    assert_eq!(
        f.check_copy_buffer(&b, 10, &a, 60, 40).unwrap(),
        CopyRegion { dst_offset: 10, src_offset: 60, size: 40 }
    );
    assert!(matches!(f.check_copy_buffer(&b, 20, &a, 0, 40), Err(Error::InvalidBounds)));
    assert!(matches!(f.check_copy_buffer(&a, 0, &a, 10, 20), Err(Error::InvalidBounds)));
    assert!(matches!(f.check_copy_buffer(&a, 25, &a, 10, 20), Err(Error::InvalidBounds)));
    assert!(f.check_copy_buffer(&a, 30, &a, 10, 20).is_ok());
    assert!(f.check_copy_buffer(&a, 50, &a, 10, 20).is_ok());
    assert!(matches!(f.check_copy_buffer(&a, 0, &a, 0, u64::MAX), Err(Error::InvalidBounds)));
    let u = uniform(1024);
    assert!(matches!(f.check_copy_buffer(&u, 4, &a, 0, 4), Err(Error::InvalidBounds)));
}

#[test]
fn copy_into_texture() {
    let f = gl(4, 5);
    let tex = TextureDesc { owner: CTX, width: 8, height: 8, format: TextureFormat::RGBA8 };
    let buf = staging(1, 256);
    let full = TextureBounds { x: 0, y: 0, width: 8, height: 8 };
    assert_eq!(f.check_copy_to_texture(&tex, full, &buf, 0).unwrap(), 0);
    assert!(matches!(f.check_copy_to_texture(&tex, full, &buf, 1), Err(Error::InvalidBounds)));
    let part = TextureBounds { x: 4, y: 6, width: 4, height: 2 };
    assert_eq!(f.check_copy_to_texture(&tex, part, &buf, 200).unwrap(), 200);
    let outside = TextureBounds { x: 5, y: 0, width: 4, height: 1 };
    assert!(matches!(f.check_copy_to_texture(&tex, outside, &buf, 0), Err(Error::InvalidBounds)));
    let huge = TextureBounds { x: 0, y: 0, width: u32::MAX, height: u32::MAX };
    let big = TextureDesc { owner: CTX, width: u32::MAX, height: u32::MAX, format: TextureFormat::RG32F };
    assert!(matches!(f.check_copy_to_texture(&big, huge, &buf, 0), Err(Error::InvalidBounds)));
}

#[test]
fn read_framebuffer_into_buffer() {
    let f = gl(4, 5);
    let fb = FramebufferDesc {
        owner: CTX,
        id: Some(3),
        width: 4,
        height: 4,
        color: vec![ColorAttachmentDesc { format: TextureFormat::RG32F, texture: Some(7) }],
        depth: Some(DepthStencilDesc { depth: Some(DepthFormat::D24), stencil: None, texture: Some(8) }),
    };
    let buf = staging(1, 128);
    let bounds = TextureBounds { x: 0, y: 0, width: 4, height: 4 };
    assert_eq!(
        f.check_read_framebuffer(&buf, 0, &fb, FramebufferAttachment::Color(0), bounds).unwrap(),
        ReadbackPlan { source: ReadSource::Color(0, TextureFormat::RG32F), offset: 0 }
    );
    assert!(matches!(
        f.check_read_framebuffer(&buf, 1, &fb, FramebufferAttachment::Color(0), bounds),
        Err(Error::InvalidBounds)
    ));
    assert_eq!(
        f.check_read_framebuffer(&buf, 64, &fb, FramebufferAttachment::Depth, bounds).unwrap(),
        ReadbackPlan { source: ReadSource::Depth, offset: 64 }
    );
    assert!(matches!(
        f.check_read_framebuffer(&buf, 0, &fb, FramebufferAttachment::Stencil, bounds),
        Err(Error::InvalidOperation)
    ));
    assert!(matches!(
        f.check_read_framebuffer(&buf, 0, &fb, FramebufferAttachment::Color(1), bounds),
        Err(Error::InvalidOperation)
    ));
    let wide = TextureBounds { x: 2000, y: 0, width: 49, height: 1 };
    assert!(matches!(
        f.check_read_framebuffer(&buf, 0, &fb, FramebufferAttachment::Depth, wide),
        Err(Error::InvalidBounds)
    ));
    let past_right = TextureBounds { x: 1, y: 0, width: 4, height: 1 };
    assert!(matches!(
        f.check_read_framebuffer(&buf, 0, &fb, FramebufferAttachment::Depth, past_right),
        Err(Error::InvalidBounds)
    ));
    let past_bottom = TextureBounds { x: 0, y: 3, width: 1, height: 2 };
    assert!(matches!(
        f.check_read_framebuffer(&buf, 0, &fb, FramebufferAttachment::Color(0), past_bottom),
        Err(Error::InvalidBounds)
    ));
    let corner = TextureBounds { x: 3, y: 3, width: 1, height: 1 };
    assert_eq!(
        f.check_read_framebuffer(&buf, 0, &fb, FramebufferAttachment::Color(0), corner).unwrap(),
        ReadbackPlan { source: ReadSource::Color(0, TextureFormat::RG32F), offset: 0 }
    );
}

fn probe(uniform: Option<(u32, u32)>, storage: Option<(u32, u32)>, sampler: bool) -> BindingProbe {
    BindingProbe { uniform_block: uniform, storage_block: storage, sampler_2d: sampler }
}

#[test]
fn pipeline_binding_assignment() {
    let f = gl(4, 5);
    let probes = vec![
        probe(Some((5, 64)), Some((1, 32)), false),
        probe(None, Some((2, 16)), false),
        probe(None, None, true),
        probe(None, None, false),
        probe(None, None, true),
    ];
    let bindings = prepare_pipeline_bindings(&f, &probes).unwrap();
    assert_eq!(
        bindings,
        vec![
            ProgramBinding::Buffer { index: 5, size: 64, role: BufferRole::Uniform },
            ProgramBinding::Buffer { index: 2, size: 16, role: BufferRole::Storage },
            ProgramBinding::Texture2D { index: 0 },
            ProgramBinding::Unbound,
            ProgramBinding::Texture2D { index: 1 },
        ]
    );
}

#[test]
fn pipeline_binding_limits() {
    let f = gl(4, 5);
    let too_many_uniforms = vec![probe(Some((0, 4)), None, false), probe(Some((1, 4)), None, false)];
    assert!(matches!(prepare_pipeline_bindings(&f, &too_many_uniforms), Err(Error::UnsupportedBinding(1))));
    let too_many_samplers = vec![probe(None, None, true), probe(None, None, true), probe(None, None, false), probe(None, None, true)];
    assert!(matches!(prepare_pipeline_bindings(&f, &too_many_samplers), Err(Error::UnsupportedBinding(3))));
    let old = gl(3, 0);
    let ignored = vec![probe(Some((0, 4)), Some((0, 4)), false)];
    assert_eq!(prepare_pipeline_bindings(&old, &ignored).unwrap(), vec![ProgramBinding::Unbound]);
}

#[test]
fn draw_binding_resolution() {
    let f = gl(4, 5);
    let block = ProgramBinding::Buffer { index: 2, size: 64, role: BufferRole::Uniform };
    let ok = BindingDesc::Buffer { buffer: uniform(1024), offset: 256, size: 128 };
    assert_eq!(
        resolve_binding(&f, 0, block, Some(&ok), None).unwrap(),
        BindAction::Buffer { role: BufferRole::Uniform, index: 2, buffer: 1, offset: 256, size: 128 }
    );
    let wrong_role = BindingDesc::Buffer { buffer: staging(1, 1024), offset: 0, size: 128 };
    assert!(matches!(resolve_binding(&f, 1, block, Some(&wrong_role), None), Err(Error::BindingMismatch(1, "invalid role"))));
    let small = BindingDesc::Buffer { buffer: uniform(1024), offset: 0, size: 32 };
    assert!(matches!(resolve_binding(&f, 2, block, Some(&small), None), Err(Error::BindingMismatch(2, "invalid size"))));
    let past = BindingDesc::Buffer { buffer: uniform(1024), offset: 1024, size: 64 };
    assert!(matches!(resolve_binding(&f, 3, block, Some(&past), None), Err(Error::BindingMismatch(3, "invalid offset"))));
    let unaligned = BindingDesc::Buffer { buffer: uniform(1024), offset: 8, size: 64 };
    assert!(matches!(
        resolve_binding(&f, 4, block, Some(&unaligned), None),
        Err(Error::BindingMismatch(4, "invalid alignment"))
    ));
    assert!(matches!(resolve_binding(&f, 5, block, None, None), Err(Error::BindingMismatch(5, "not a buffer"))));

    let sampler = ProgramBinding::Texture2D { index: 1 };
    let tex = BindingDesc::Texture { texture: 9, owner: CTX };
    assert_eq!(resolve_binding(&f, 0, sampler, Some(&tex), None).unwrap(), BindAction::Texture { unit: 1, texture: 9 });
    assert!(matches!(resolve_binding(&f, 6, sampler, Some(&ok), None), Err(Error::BindingMismatch(6, "not a texture"))));
    let fb = FramebufferDesc {
        owner: CTX,
        id: Some(4),
        width: 16,
        height: 16,
        color: vec![ColorAttachmentDesc { format: TextureFormat::RGBA8, texture: Some(11) }],
        depth: Some(DepthStencilDesc { depth: Some(DepthFormat::D24), stencil: None, texture: None }),
    };
    let color = BindingDesc::Framebuffer { framebuffer: fb.clone(), attachment: FramebufferAttachment::Color(0) };
    assert_eq!(resolve_binding(&f, 0, sampler, Some(&color), None).unwrap(), BindAction::Texture { unit: 1, texture: 11 });
    assert!(matches!(resolve_binding(&f, 0, sampler, Some(&color), Some(4)), Err(Error::FramebufferInUse)));
    let depth = BindingDesc::Framebuffer { framebuffer: fb.clone(), attachment: FramebufferAttachment::Depth };
    assert!(matches!(resolve_binding(&f, 7, sampler, Some(&depth), None), Err(Error::BindingMismatch(7, "invalid attachment"))));
    let stencil = BindingDesc::Framebuffer { framebuffer: fb, attachment: FramebufferAttachment::Stencil };
    assert!(matches!(resolve_binding(&f, 8, sampler, Some(&stencil), None), Err(Error::BindingMismatch(8, "invalid attachment"))));
    assert_eq!(resolve_binding(&f, 0, ProgramBinding::Unbound, None, None).unwrap(), BindAction::Skip);
}

#[test]
fn query_lifecycle() {
    let f = gl(4, 5);
    let mut tracker = QueryTracker::new();
    assert_eq!(tracker.begin(&f, QueryType::Elapsed).unwrap(), None);
    assert_eq!(tracker.commit_begin(QueryType::Elapsed, 20), QueryState::Begun(20));
    assert!(matches!(tracker.begin(&f, QueryType::Elapsed), Err(Error::InvalidOperation)));
    assert_eq!(tracker.begin(&f, QueryType::Occlusion(OcclusionTest::Exact)).unwrap(), None);
    assert_eq!(tracker.commit_begin(QueryType::Occlusion(OcclusionTest::Exact), 22), QueryState::Begun(22));
    assert!(matches!(
        tracker.begin(&f, QueryType::Occlusion(OcclusionTest::Conservative)),
        Err(Error::InvalidOperation)
    ));

    let begun = QueryState::Begun(21);
    assert!(matches!(read_step(begun), Err(Error::InvalidOperation)));
    let ended = tracker.end(begun, QueryType::Elapsed).unwrap();
    assert_eq!(ended, QueryState::Ended(21));
    assert!(matches!(tracker.end(ended, QueryType::Elapsed), Err(Error::InvalidOperation)));
    assert_eq!(read_step(ended).unwrap(), ReadStep::Poll(21));

    assert_eq!(tracker.complete_read(21, false, 0), (None, QueryState::Ended(21)));
    assert!(tracker.pool.is_empty());
    let (result, state) = tracker.complete_read(21, true, 1234);
    assert_eq!(result, Some(1234));
    assert_eq!(read_step(state).unwrap(), ReadStep::Ready(1234));
    assert_eq!(tracker.pool, vec![21]);

    assert_eq!(tracker.begin(&f, QueryType::Elapsed).unwrap(), Some(21));
    tracker.release(QueryState::Begun(30));
    tracker.release(QueryState::Available(5));
    assert_eq!(tracker.pool, vec![30]);

    let old = gl(3, 0);
    assert!(matches!(QueryTracker::new().begin(&old, QueryType::Elapsed), Err(Error::UnsupportedFeature)));
}

#[test]
fn render_state_cache() {
    let mut cache = RenderCache::new();
    let viewport = TextureBounds { x: 0, y: 0, width: 640, height: 480 };
    let skipped = cache.begin_draw(0, Some(1), 2, false, viewport, None);
    assert!(skipped.skip && !skipped.bind_framebuffer && !skipped.apply_pipeline);
    assert_eq!(cache, RenderCache::new());

    let first = cache.begin_draw(3, Some(1), 2, false, viewport, None);
    assert!(!first.skip && first.bind_framebuffer && first.apply_pipeline && first.set_viewport && first.set_scissor);
    assert!(!first.set_depth_write);
    let again = cache.begin_draw(3, Some(1), 2, false, viewport, None);
    assert!(!again.bind_framebuffer && !again.apply_pipeline && !again.set_viewport && !again.set_scissor);
    assert!(!again.set_depth_write);

    let clear = cache.begin_clear(None, Some(viewport), true, false, false);
    assert!(clear.bind_framebuffer && clear.set_scissor && !clear.set_depth_write);
    assert!(clear.clear_color && !clear.clear_depth && !clear.clear_stencil);
    let clear_again = cache.begin_clear(None, Some(viewport), true, false, false);
    assert!(!clear_again.bind_framebuffer && !clear_again.set_scissor);
    assert!(cache.use_pipeline(5));
    assert!(!cache.use_pipeline(5));
}

#[test]
fn raster_plan_of_layouts() {
    let shader = Shader::Glsl(ShaderGlsl { vertex: "", fragment: "", bindings: &[] });
    let plan = RasterPlan::from_layout(&PipelineLayout::new(shader));
    assert_eq!(plan.stencil, None);
    assert_eq!(plan.cull, None);
    assert_eq!(plan.blend, None);
    assert_eq!(plan.depth_test, None);
    assert!(!plan.depth_write);
    assert_eq!(plan.topology, PrimitiveTopology::TriangleList);

    let face = StencilFace { mask: 1, ..StencilFace::default() };
    let layout = PipelineLayout::new(shader)
        .with_stencil(StencilFace::default(), face)
        .with_culling(true, false)
        .with_color_blend(BlendMode::premul())
        .with_depth(CompareFn::LessEqual, true)
        .with_topology(PrimitiveTopology::TriangleFan);
    let plan = RasterPlan::from_layout(&layout);
    let stencil = plan.stencil.unwrap();
    assert_eq!((stencil.front, stencil.back), (face, StencilFace::default()));
    assert_eq!(plan.cull, Some(CullFace::Front));
    assert_eq!(plan.blend, Some(BlendMode::premul()));
    assert_eq!(plan.depth_test, Some(CompareFn::LessEqual));
    assert!(plan.depth_write);
    assert_eq!(RasterPlan::from_layout(&layout.clone().with_culling(false, true)).cull, Some(CullFace::Back));
    assert_eq!(RasterPlan::from_layout(&layout.with_culling(true, true)).cull, Some(CullFace::FrontAndBack));
}

#[test]
fn program_building() {
    let glsl = ShaderGlsl { vertex: "v", fragment: "f", bindings: &[] };
    assert!(glsl_source(Shader::Glsl(glsl)).is_ok());
    let spirv = Shader::SpirV(ShaderSpirV { vertex_module: &[], vertex_entry: "", fragment_module: &[], fragment_entry: "" });
    assert!(matches!(glsl_source(spirv), Err(Error::UnsupportedFormat)));
    assert!(build_outcome(None, None, None).is_ok());
    assert!(matches!(
        build_outcome(Some("v".into()), Some("f".into()), None),
        Err(Error::Compile(CompileStage::Vertex, log)) if log == "v"
    ));
    assert!(matches!(
        build_outcome(None, Some("f".into()), None),
        Err(Error::Compile(CompileStage::Fragment, log)) if log == "f"
    ));
    assert!(matches!(
        build_outcome(None, None, Some("l".into())),
        Err(Error::Compile(CompileStage::Linking, log)) if log == "l"
    ));
}

#[test]
fn fence_waiting() {
    assert!(matches!(wait_plan(false, 10), Err(Error::UnsupportedFeature)));
    assert_eq!(wait_plan(true, 0).unwrap(), WaitPlan::Poll);
    assert_eq!(wait_plan(true, 1_000).unwrap(), WaitPlan::Wait(1_000));
    assert_eq!(wait_plan(true, u128::MAX).unwrap(), WaitPlan::Wait(i32::MAX));
    assert!(wait_result(WaitOutcome::Signaled).unwrap());
    assert!(!wait_result(WaitOutcome::TimeoutExpired).unwrap());
    assert!(matches!(wait_result(WaitOutcome::Failed), Err(Error::Internal(msg)) if msg == "Waiting on a fence failed"));
}

#[test]
fn surface_errors() {
    assert!(matches!(Error::from(SurfaceError::InvalidContext), Error::InvalidContext));
    assert!(matches!(Error::from(SurfaceError::Internal("lost".into())), Error::Internal(m) if m == "lost"));
    assert_eq!(SurfaceError::InvalidContext.message(), "invalid opengl context");
    assert_eq!(SurfaceError::Internal("x".into()).message(), "x");
}

#[test]
fn created_buffer_accepts_full_upload() {
    let f = gl(4, 5);
    let layout = BufferLayout::new(BufferRole::Storage, 4096).with_can_upload();
    let capacity = f.check_buffer(layout).unwrap();
    let desc = BufferDesc { owner: CTX, id: 1, role: layout.role, capacity, can_upload: true, can_download: false };
    assert_eq!(f.check_upload(&desc, 0, capacity as usize).unwrap(), UploadPlan::Replace);

    let layout = BufferLayout::new(BufferRole::Staging, 300).with_can_download();
    let capacity = f.check_buffer(layout).unwrap();
    let desc = BufferDesc { owner: CTX, id: 2, role: layout.role, capacity, can_upload: false, can_download: true };
    assert_eq!(f.check_download(&desc, 0, capacity as usize).unwrap(), 0);
}

#[test]
fn regions_ending_past_the_largest_capacity_are_refused() {
    let f = gl(4, 5);
    let full = staging(1, u32::MAX);
    assert!(matches!(f.check_upload(&full, (u32::MAX - 1) as u64, 4), Err(Error::InvalidBounds)));
    assert!(matches!(f.check_download(&full, (u32::MAX - 1) as u64, 4), Err(Error::InvalidBounds)));
    assert_eq!(f.check_upload(&full, (u32::MAX - 4) as u64, 4).unwrap(), UploadPlan::Update(u32::MAX - 4));
    let other = staging(2, u32::MAX);
    assert!(matches!(f.check_copy_buffer(&full, (u32::MAX - 1) as u64, &other, 0, 4), Err(Error::InvalidBounds)));
    assert!(matches!(f.check_copy_buffer(&full, 0, &other, (u32::MAX - 1) as u64, 4), Err(Error::InvalidBounds)));
    assert!(f.check_copy_buffer(&full, (u32::MAX - 4) as u64, &other, 0, 4).is_ok());
    let tex = TextureDesc { owner: CTX, width: 1, height: 1, format: TextureFormat::RGBA8 };
    let one = TextureBounds { x: 0, y: 0, width: 1, height: 1 };
    assert!(matches!(f.check_copy_to_texture(&tex, one, &full, (u32::MAX - 1) as u64), Err(Error::InvalidBounds)));
    assert_eq!(f.check_copy_to_texture(&tex, one, &full, (u32::MAX - 4) as u64).unwrap(), u32::MAX - 4);
    let wide = TextureDesc { owner: CTX, width: u32::MAX, height: 1, format: TextureFormat::R8 };
    let past = TextureBounds { x: u32::MAX - 1, y: 0, width: 4, height: 1 };
    assert!(matches!(f.check_copy_to_texture(&wide, past, &full, 0), Err(Error::InvalidBounds)));
}

#[test]
fn draw_bindings_must_match_the_pipeline() {
    let f = gl(4, 5);
    let program = vec![
        ProgramBinding::Buffer { index: 2, size: 64, role: BufferRole::Uniform },
        ProgramBinding::Texture2D { index: 1 },
    ];
    let block = BindingDesc::Buffer { buffer: uniform(1024), offset: 0, size: 64 };
    let tex = BindingDesc::Texture { texture: 9, owner: CTX };
    assert_eq!(
        plan_draw_bindings(&f, &program, &vec![block.clone(), tex.clone()], None).unwrap(),
        vec![
            BindAction::Buffer { role: BufferRole::Uniform, index: 2, buffer: 1, offset: 0, size: 64 },
            BindAction::Texture { unit: 1, texture: 9 },
        ]
    );
    assert!(matches!(
        plan_draw_bindings(&f, &program, &vec![block.clone()], None),
        Err(Error::BindingMismatch(1, "not a texture"))
    ));
    let with_unbound = vec![program[0], ProgramBinding::Unbound];
    assert!(matches!(
        plan_draw_bindings(&f, &with_unbound, &vec![block.clone()], None),
        Err(Error::BindingMismatch(1, "invalid binding count"))
    ));
    assert!(matches!(
        plan_draw_bindings(&f, &program, &vec![], None),
        Err(Error::BindingMismatch(0, "not a buffer"))
    ));
    assert!(matches!(
        plan_draw_bindings(&f, &program, &vec![block.clone(), tex.clone(), tex.clone()], None),
        Err(Error::BindingMismatch(2, "invalid binding count"))
    ));
    assert!(matches!(
        plan_draw_bindings(&f, &program, &vec![tex.clone(), block.clone()], None),
        Err(Error::BindingMismatch(0, "not a buffer"))
    ));
    assert!(matches!(
        plan_draw_bindings(&f, &program, &vec![block.clone(), block.clone()], None),
        Err(Error::BindingMismatch(1, "not a texture"))
    ));
    assert_eq!(plan_draw_bindings(&f, &vec![], &vec![], None).unwrap(), vec![]);
}

#[test]
fn draw_checks_bindings_before_skipping_empty_draws() {
    let f = gl(4, 5);
    let viewport = TextureBounds { x: 0, y: 0, width: 64, height: 64 };
    let program = vec![ProgramBinding::Texture2D { index: 0 }];
    let mut cache = RenderCache::new();
    assert!(matches!(
        cache.plan_draw(&f, &program, &vec![], 0, None, 1, false, viewport, None),
        Err(Error::BindingMismatch(0, "not a texture"))
    ));
    assert_eq!(cache, RenderCache::new());
    let provided = vec![BindingDesc::Texture { texture: 3, owner: CTX }];
    let (changes, actions) = cache.plan_draw(&f, &program, &provided, 0, None, 1, false, viewport, None).unwrap();
    assert!(changes.skip);
    assert_eq!(actions, vec![BindAction::Texture { unit: 0, texture: 3 }]);
    assert_eq!(cache, RenderCache::new());
    let (changes, _) = cache.plan_draw(&f, &program, &provided, 6, None, 1, true, viewport, None).unwrap();
    assert!(!changes.skip && changes.bind_framebuffer && changes.apply_pipeline);
    assert_eq!(cache.last_depth_write, Some(true));
}

#[test]
fn depth_clears_enable_depth_writes() {
    let mut cache = RenderCache::new();
    let viewport = TextureBounds { x: 0, y: 0, width: 64, height: 64 };
    cache.begin_draw(3, None, 7, false, viewport, None);
    let clear = cache.begin_clear(None, None, false, true, true);
    assert!(clear.set_depth_write && clear.clear_depth && clear.clear_stencil && !clear.clear_color);
    assert!(!clear.bind_framebuffer && !clear.set_scissor);
    assert_eq!(cache.last_depth_write, Some(true));
    let again = cache.begin_clear(None, None, false, true, false);
    assert!(!again.set_depth_write);
    let draw = cache.begin_draw(3, None, 7, false, viewport, None);
    assert!(!draw.apply_pipeline && draw.set_depth_write);
    assert_eq!(cache.last_depth_write, Some(false));
    let color_only = cache.begin_clear(None, None, true, false, false);
    assert!(!color_only.set_depth_write);
    assert_eq!(cache.last_depth_write, Some(false));
}

#[test]
fn culling_discards_the_named_winding() {
    assert_eq!(cull_face(false, false), None);
    assert_eq!(cull_face(true, false), Some(CullFace::Front));
    assert_eq!(cull_face(false, true), Some(CullFace::Back));
    assert_eq!(cull_face(true, true), Some(CullFace::FrontAndBack));
}

#[test]
fn a_failed_query_creation_leaves_the_kind_free() {
    let f = gl(4, 5);
    let mut tracker = QueryTracker::new();
    assert_eq!(tracker.begin(&f, QueryType::Primitives).unwrap(), None);
    assert_eq!(tracker.begin(&f, QueryType::Primitives).unwrap(), None);
    let state = tracker.commit_begin(QueryType::Primitives, 4);
    assert!(matches!(tracker.begin(&f, QueryType::Primitives), Err(Error::InvalidOperation)));
    assert_eq!(tracker.end(state, QueryType::Primitives).unwrap(), QueryState::Ended(4));
    assert_eq!(tracker.begin(&f, QueryType::Primitives).unwrap(), None);
}

#[test]
fn each_backend_takes_its_own_shader_format() {
    let glsl = Shader::Glsl(ShaderGlsl { vertex: "v", fragment: "f", bindings: &[] });
    let spirv = Shader::SpirV(ShaderSpirV { vertex_module: &[1], vertex_entry: "main", fragment_module: &[2], fragment_entry: "main" });
    assert!(matches!(spirv_source(glsl), Err(Error::UnsupportedFormat)));
    let modules = spirv_source(spirv).unwrap();
    assert_eq!(modules.vertex_entry, "main");
    assert_eq!(modules.fragment_module, &[2]);
    assert!(glsl_source(glsl).is_ok());
    assert!(matches!(glsl_source(spirv), Err(Error::UnsupportedFormat)));
}

#[test]
fn loader_addresses() {
    assert!(!address_usable(0));
    assert!(!address_usable(7));
    assert!(address_usable(8));
    assert!(address_usable(0x7fff_0000));
    assert!(!address_usable(usize::MAX));
}

#[test]
fn debug_message_kinds() {
    assert_eq!(debug_message_kind(0x824C), DebugMessage::Error);
    assert_eq!(debug_message_kind(0x824D), DebugMessage::Deprecated);
    assert_eq!(debug_message_kind(0x824E), DebugMessage::UndefinedBehavior);
    assert_eq!(debug_message_kind(0x824F), DebugMessage::Portability);
    assert_eq!(debug_message_kind(0x8250), DebugMessage::Performance);
    assert_eq!(debug_message_kind(0x8268), DebugMessage::Marker);
    assert_eq!(debug_message_kind(0x8251), DebugMessage::Other);
    assert_eq!(debug_message_kind(0x8269), DebugMessage::Other);
    assert_eq!(debug_message_kind(0), DebugMessage::Other);
}

/// A context other than the one the test resources belong to.
const OTHER: u64 = 2;

#[test]
fn resources_of_another_context_are_refused() {
    let f = gl(4, 5);
    let b = uniform(1024);
    let foreign = BufferDesc { owner: OTHER, ..b };
    assert!(check_owner(CTX, CTX).is_ok());
    assert!(matches!(check_owner(CTX, OTHER), Err(Error::InvalidResource)));
    assert!(matches!(f.check_owned_upload(CTX, &foreign, 0, 1024), Err(Error::InvalidResource)));
    assert_eq!(f.check_owned_upload(CTX, &b, 0, 1024).unwrap(), UploadPlan::Replace);
    assert!(matches!(f.check_owned_upload(CTX, &b, 128, 16), Err(Error::InvalidBounds)));
    assert!(matches!(f.check_owned_download(CTX, &foreign, 0, 4), Err(Error::InvalidResource)));
    assert_eq!(f.check_owned_download(CTX, &b, 512, 512).unwrap(), 512);

    let a = staging(3, 100);
    let c = staging(4, 100);
    let foreign_a = BufferDesc { owner: OTHER, ..a };
    assert!(matches!(f.check_owned_copy_buffer(CTX, &foreign_a, 0, &c, 0, 4), Err(Error::InvalidResource)));
    assert!(matches!(f.check_owned_copy_buffer(CTX, &c, 0, &foreign_a, 0, 4), Err(Error::InvalidResource)));
    assert!(matches!(f.check_owned_copy_buffer(CTX, &c, 0, &foreign_a, 0, u64::MAX), Err(Error::InvalidResource)));
    assert!(f.check_owned_copy_buffer(CTX, &c, 0, &a, 0, 4).is_ok());

    let tex = TextureDesc { owner: CTX, width: 2, height: 2, format: TextureFormat::R8 };
    let foreign_tex = TextureDesc { owner: OTHER, ..tex };
    let all = TextureBounds { x: 0, y: 0, width: 2, height: 2 };
    assert!(matches!(f.check_owned_copy_to_texture(CTX, &foreign_tex, all, &a, 0), Err(Error::InvalidResource)));
    assert!(matches!(f.check_owned_copy_to_texture(CTX, &tex, all, &foreign_a, 0), Err(Error::InvalidResource)));
    assert_eq!(f.check_owned_copy_to_texture(CTX, &tex, all, &a, 4).unwrap(), 4);

    let fb = FramebufferDesc {
        owner: OTHER,
        id: Some(5),
        width: 2,
        height: 2,
        color: vec![ColorAttachmentDesc { format: TextureFormat::R8, texture: None }],
        depth: None,
    };
    assert!(matches!(
        f.check_owned_read_framebuffer(CTX, &a, 0, &fb, FramebufferAttachment::Color(0), all),
        Err(Error::InvalidResource)
    ));
    let own_fb = FramebufferDesc { owner: CTX, ..fb };
    assert_eq!(
        f.check_owned_read_framebuffer(CTX, &a, 0, &own_fb, FramebufferAttachment::Color(0), all).unwrap(),
        ReadbackPlan { source: ReadSource::Color(0, TextureFormat::R8), offset: 0 }
    );
    assert!(matches!(
        f.check_owned_read_framebuffer(CTX, &foreign_a, 0, &own_fb, FramebufferAttachment::Color(0), all),
        Err(Error::InvalidResource)
    ));
}

#[test]
fn draws_and_clears_of_another_context_are_refused() {
    let f = gl(4, 5);
    let viewport = TextureBounds { x: 0, y: 0, width: 64, height: 64 };
    let program = vec![ProgramBinding::Texture2D { index: 0 }];
    let own = vec![BindingDesc::Texture { texture: 3, owner: CTX }];
    let foreign = vec![BindingDesc::Texture { texture: 3, owner: OTHER }];
    assert!(bindings_owned(CTX, &own));
    assert!(!bindings_owned(CTX, &foreign));
    assert!(bindings_owned(CTX, &vec![]));
    let mut cache = RenderCache::new();
    for (target, pipeline, provided) in [(OTHER, CTX, &own), (CTX, OTHER, &own), (CTX, CTX, &foreign)] {
        assert!(matches!(
            cache.plan_owned_draw(CTX, target, pipeline, &f, &program, provided, 3, None, 1, false, viewport, None),
            Err(Error::InvalidResource)
        ));
        assert_eq!(cache, RenderCache::new());
    }
    assert!(matches!(
        cache.plan_owned_draw(CTX, CTX, CTX, &f, &program, &vec![], 3, None, 1, false, viewport, None),
        Err(Error::BindingMismatch(0, "not a texture"))
    ));
    let (changes, actions) =
        cache.plan_owned_draw(CTX, CTX, CTX, &f, &program, &own, 3, None, 1, false, viewport, None).unwrap();
    assert!(!changes.skip && changes.apply_pipeline);
    assert_eq!(actions, vec![BindAction::Texture { unit: 0, texture: 3 }]);

    let before = cache;
    assert!(matches!(cache.begin_owned_clear(CTX, OTHER, Some(9), None, true, true, false), Err(Error::InvalidResource)));
    assert_eq!(cache, before);
    let clear = cache.begin_owned_clear(CTX, CTX, Some(9), None, true, false, false).unwrap();
    assert!(clear.bind_framebuffer && clear.clear_color);
}

#[test]
fn queries_and_fences_of_another_context_are_refused() {
    let f = gl(4, 5);
    let mut tracker = QueryTracker::new();
    assert_eq!(tracker.begin(&f, QueryType::Elapsed).unwrap(), None);
    let begun = tracker.commit_begin(QueryType::Elapsed, 7);
    assert!(matches!(tracker.end_owned(CTX, OTHER, begun, QueryType::Elapsed), Err(Error::InvalidResource)));
    assert!(matches!(tracker.begin(&f, QueryType::Elapsed), Err(Error::InvalidOperation)));
    let ended = tracker.end_owned(CTX, CTX, begun, QueryType::Elapsed).unwrap();
    assert_eq!(ended, QueryState::Ended(7));
    assert!(matches!(read_owned_step(CTX, OTHER, ended), Err(Error::InvalidResource)));
    assert_eq!(read_owned_step(CTX, CTX, ended).unwrap(), ReadStep::Poll(7));
    assert!(matches!(read_owned_step(CTX, CTX, begun), Err(Error::InvalidOperation)));

    assert!(matches!(wait_owned_plan(CTX, OTHER, true, 10), Err(Error::InvalidResource)));
    assert!(matches!(wait_owned_plan(CTX, OTHER, false, 10), Err(Error::InvalidResource)));
    assert_eq!(wait_owned_plan(CTX, CTX, true, 10).unwrap(), WaitPlan::Wait(10));
    assert!(matches!(wait_owned_plan(CTX, CTX, false, 10), Err(Error::UnsupportedFeature)));
}

#[test]
fn small_backend_decisions() {
    assert_eq!(attachment_storage(true, 0), AttachmentStorage::Texture);
    assert_eq!(attachment_storage(true, 4), AttachmentStorage::MultisampleRenderbuffer);
    assert_eq!(attachment_storage(false, 0), AttachmentStorage::Renderbuffer);
    assert_eq!(attachment_storage(false, 2), AttachmentStorage::MultisampleRenderbuffer);
    assert!(should_link(true, true));
    assert!(!should_link(false, true));
    assert!(!should_link(true, false));
    assert!(present_fence(&gl(3, 2)));
    assert!(!present_fence(&gl(3, 0)));
}

#[test]
fn embedded_contexts_have_no_sample_count_queries() {
    let es = Features::from_context(GlVersion { major: 3, minor: 2, is_embedded: true }, no_extensions(), parameters())
        .unwrap();
    assert!(!es.query_samples_primitives);
    assert!(matches!(
        QueryTracker::new().begin(&es, QueryType::Occlusion(OcclusionTest::Samples)),
        Err(Error::UnsupportedFeature)
    ));
    assert_eq!(QueryTracker::new().begin(&es, QueryType::Occlusion(OcclusionTest::Exact)).unwrap(), None);
    assert!(gl(3, 0).query_samples_primitives);
}

#[test]
fn debug_types_are_those_of_gl() {
    assert_eq!(DEBUG_TYPE_ERROR, glow::DEBUG_TYPE_ERROR);
    assert_eq!(DEBUG_TYPE_DEPRECATED_BEHAVIOR, glow::DEBUG_TYPE_DEPRECATED_BEHAVIOR);
    assert_eq!(DEBUG_TYPE_UNDEFINED_BEHAVIOR, glow::DEBUG_TYPE_UNDEFINED_BEHAVIOR);
    assert_eq!(DEBUG_TYPE_PORTABILITY, glow::DEBUG_TYPE_PORTABILITY);
    assert_eq!(DEBUG_TYPE_PERFORMANCE, glow::DEBUG_TYPE_PERFORMANCE);
    assert_eq!(DEBUG_TYPE_MARKER, glow::DEBUG_TYPE_MARKER);
    assert_eq!(debug_message_kind(glow::DEBUG_TYPE_OTHER), DebugMessage::Other);
}
