use picogpu::{
    BlendFactor, BlendMode, BlendOp, BufferLayout, BufferRole, CompareFn, CompileStage, DepthFormat, Error,
    PipelineLayout, PrimitiveTopology, Shader, ShaderGlsl, ShaderSpirV, StencilFace, StencilFormat, StencilOp,
    TextureBorder, TextureFilter, TextureFormat, TextureLayout, TextureWrap,
};

fn glsl() -> Shader<'static> {
    Shader::from(ShaderGlsl { vertex: "void main() {}", fragment: "void main() {}", bindings: &["a", "b"] })
}

#[test]
fn buffer_layout_defaults_and_flags() {
    let layout = BufferLayout::new(BufferRole::Uniform, 32);
    assert_eq!(layout.role, BufferRole::Uniform);
    assert_eq!(layout.capacity, 32);
    assert!(!layout.can_download);
    assert!(!layout.can_upload);

    let up = layout.with_can_upload();
    assert!(up.can_upload);
    assert!(!up.can_download);
    assert_eq!(up.capacity, 32);

    let both = up.with_can_download();
    assert!(both.can_upload && both.can_download);
    assert_eq!(both.role, BufferRole::Uniform);
}

#[test]
fn texture_format_sizes() {
    assert_eq!(TextureFormat::R8.bytes_per_pixel(), 1);
    assert_eq!(TextureFormat::RGBA8.bytes_per_pixel(), 4);
    assert_eq!(TextureFormat::BGRA8.bytes_per_pixel(), 4);
    assert_eq!(TextureFormat::R8S.bytes_per_pixel(), 1);
    assert_eq!(TextureFormat::R16S.bytes_per_pixel(), 2);
    assert_eq!(TextureFormat::R32F.bytes_per_pixel(), 4);
    assert_eq!(TextureFormat::RG32F.bytes_per_pixel(), 8);
    assert_eq!(DepthFormat::D24.bytes_per_pixel(), 3);
    assert_eq!(DepthFormat::D32F.bytes_per_pixel(), 4);
    assert_eq!(StencilFormat::S8.bytes_per_pixel(), 1);
}

#[test]
fn texture_layout_defaults_and_builders() {
    let layout = TextureLayout::new(8, 4, TextureFormat::RGBA8);
    assert_eq!((layout.width, layout.height), (8, 4));
    assert_eq!(layout.format, TextureFormat::RGBA8);
    assert_eq!(layout.filter_min, TextureFilter::Nearest);
    assert_eq!(layout.filter_mag, TextureFilter::Nearest);
    assert_eq!(layout.wrap_x, TextureWrap::Border);
    assert_eq!(layout.wrap_y, TextureWrap::Border);
    assert_eq!(layout.wrap_border, TextureBorder::Transparent);

    let layout = layout
        .with_filter(TextureFilter::Linear, TextureFilter::Nearest)
        .with_wrap(TextureWrap::Repeat, TextureWrap::Mirror)
        .with_border(TextureBorder::White);
    assert_eq!(layout.filter_min, TextureFilter::Linear);
    assert_eq!(layout.filter_mag, TextureFilter::Nearest);
    assert_eq!(layout.wrap_x, TextureWrap::Repeat);
    assert_eq!(layout.wrap_y, TextureWrap::Mirror);
    assert_eq!(layout.wrap_border, TextureBorder::White);
    assert_eq!((layout.width, layout.height, layout.format), (8, 4, TextureFormat::RGBA8));
}

#[test]
fn stencil_face_default_disables_test() {
    let face = StencilFace::default();
    assert_eq!(face.mask, 0);
    assert_eq!(face.reference, 0);
    assert_eq!(face.compare, CompareFn::Always);
    assert_eq!(face.pass_op, StencilOp::Keep);
    assert_eq!(face.fail_op, StencilOp::Keep);
    assert_eq!(face.depth_fail_op, StencilOp::Keep);
}

#[test]
fn blend_mode_presets() {
    let o = BlendMode::overwrite();
    assert_eq!((o.color_src, o.color_dst, o.color_op), (BlendFactor::One, BlendFactor::Zero, BlendOp::Add));
    assert_eq!((o.alpha_src, o.alpha_dst, o.alpha_op), (BlendFactor::One, BlendFactor::Zero, BlendOp::Add));
    let d = BlendMode::discard();
    assert_eq!((d.color_src, d.color_dst), (BlendFactor::Zero, BlendFactor::One));
    let a = BlendMode::additive();
    assert_eq!((a.color_src, a.color_dst, a.alpha_src, a.alpha_dst), (BlendFactor::One, BlendFactor::One, BlendFactor::One, BlendFactor::One));
    let al = BlendMode::alpha();
    assert_eq!((al.color_src, al.color_dst), (BlendFactor::SrcAlpha, BlendFactor::OneMinusSrcAlpha));
    assert_eq!((al.alpha_src, al.alpha_dst), (BlendFactor::One, BlendFactor::OneMinusSrcAlpha));
    let p = BlendMode::premul();
    assert_eq!((p.color_src, p.color_dst), (BlendFactor::One, BlendFactor::OneMinusSrcAlpha));
    assert_ne!(o, al);
}

#[test]
fn pipeline_layout_defaults_and_builders() {
    let layout = PipelineLayout::new(glsl());
    assert!(layout.color_outputs.is_empty());
    assert_eq!(layout.color_blend, BlendMode::overwrite());
    assert_eq!(layout.depth_test, CompareFn::Always);
    assert!(!layout.depth_write);
    assert_eq!(layout.stencil_cw, StencilFace::default());
    assert_eq!(layout.stencil_ccw, StencilFace::default());
    assert!(!layout.cull_ccw && !layout.cull_cw);
    assert_eq!(layout.topology, PrimitiveTopology::TriangleList);

    let face = StencilFace { mask: 0xff, reference: 1, ..StencilFace::default() };
    let outputs = [TextureFormat::RGBA8, TextureFormat::R8];
    let layout = layout
        .with_color_outputs(&outputs)
        .with_color_blend(BlendMode::alpha())
        .with_depth(CompareFn::Less, true)
        .with_stencil(face, StencilFace::default())
        .with_culling(true, false)
        .with_topology(PrimitiveTopology::TriangleStrip);
    assert_eq!(layout.color_outputs, &outputs);
    assert_eq!(layout.color_blend, BlendMode::alpha());
    assert_eq!(layout.depth_test, CompareFn::Less);
    assert!(layout.depth_write);
    assert_eq!(layout.stencil_cw, face);
    assert_eq!(layout.stencil_ccw, StencilFace::default());
    assert!(layout.cull_ccw && !layout.cull_cw);
    assert_eq!(layout.topology, PrimitiveTopology::TriangleStrip);
}

#[test]
fn shader_from_sources() {
    assert!(matches!(glsl(), Shader::Glsl(s) if s.bindings.len() == 2));
    let spirv = Shader::from(ShaderSpirV {
        vertex_module: &[1, 2],
        vertex_entry: "main",
        fragment_module: &[3],
        fragment_entry: "main",
    });
    assert!(matches!(spirv, Shader::SpirV(s) if s.vertex_module == &[1, 2]));
}

#[test]
fn error_messages() {
    assert_eq!(Error::UnsupportedSize.message(), "requested size is not supported by the backend");
    assert_eq!(Error::UnsupportedFormat.message(), "requested format is not supported by the backend");
    assert_eq!(Error::UnsupportedFeature.message(), "requested feature is not supported by the backend");
    assert_eq!(Error::UnsupportedBinding(3).message(), "unsupported binding in pipeline (index 3)");
    assert_eq!(Error::UnsupportedBinding(1204).message(), "unsupported binding in pipeline (index 1204)");
    assert_eq!(Error::InvalidContext.message(), "invalid context");
    assert_eq!(Error::InvalidBounds.message(), "invalid bounds for a resource update");
    assert_eq!(Error::InvalidResource.message(), "resource does not belong to this context");
    assert_eq!(Error::InvalidOperation.message(), "operation is not valid in the current state");
    assert_eq!(
        Error::BindingMismatch(10, "not a buffer").message(),
        "binding does not match the pipeline (index 10): not a buffer"
    );
    assert_eq!(Error::FramebufferInUse.message(), "framebuffer already in use");
    assert_eq!(
        Error::Compile(CompileStage::Fragment, "bad".to_string()).message(),
        "fragment shader compilation error: bad"
    );
    assert_eq!(
        Error::Compile(CompileStage::Vertex, "worse".to_string()).message(),
        "vertex shader compilation error: worse"
    );
    assert_eq!(Error::Compile(CompileStage::Linking, "x".to_string()).message(), "shader linking error: x");
    assert_eq!(Error::Internal("boom".to_string()).message(), "internal error: boom");
}

#[test]
fn decimal_strings() {
    assert_eq!(picogpu::error::decimal_string(0), "0");
    assert_eq!(picogpu::error::decimal_string(9), "9");
    assert_eq!(picogpu::error::decimal_string(10), "10");
    assert_eq!(picogpu::error::decimal_string(4096), "4096");
    assert_eq!(picogpu::error::decimal_string(usize::MAX), usize::MAX.to_string());
}
