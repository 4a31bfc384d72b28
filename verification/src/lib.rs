//! A small GPU abstraction layer: resource descriptions, their builders, and the
//! validation and state rules that a backend applies before it talks to the GPU.

mod buffer;

pub use buffer::BufferLayout;
pub use buffer::BufferRole;

mod texture;

pub use texture::TextureBorder;
pub use texture::TextureBounds;
pub use texture::TextureFilter;
pub use texture::TextureFormat;
pub use texture::TextureLayout;
pub use texture::TextureWrap;

mod framebuffer;

pub use framebuffer::DepthFormat;
pub use framebuffer::FramebufferAttachment;
pub use framebuffer::FramebufferLayout;
pub use framebuffer::StencilFormat;

mod shader;

pub use shader::CompileStage;
pub use shader::Shader;
pub use shader::ShaderFormat;
pub use shader::ShaderGlsl;
pub use shader::ShaderSpirV;

mod pipeline;

pub use pipeline::BlendFactor;
pub use pipeline::BlendMode;
pub use pipeline::BlendOp;
pub use pipeline::CompareFn;
pub use pipeline::PrimitiveTopology;
pub use pipeline::StencilFace;
pub use pipeline::StencilOp;
pub use pipeline::PipelineLayout;

mod query;

pub use query::OcclusionTest;
pub use query::QueryType;

pub mod error;

pub use error::Capabilities;
pub use error::Error;

pub mod opengl;

pub mod ownership;

pub mod raster;

pub mod vulkan;
