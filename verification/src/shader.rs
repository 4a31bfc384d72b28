use vstd::prelude::*;

verus! {

/// The stage of shader compilation in which an error occurred.
#[derive(Debug, Clone, Copy, PartialEq, Eq, Structural)]
pub enum CompileStage {
    /// Compiling the vertex shader.
    Vertex,
    /// Compiling the fragment shader.
    Fragment,
    /// Linking the shader program.
    Linking,
}

/// The shader format used by a backend.
#[derive(Debug, Clone, Copy, PartialEq, Eq, Structural)]
#[non_exhaustive]
pub enum ShaderFormat {
    /// GLSL of the given version (120, 330, ...).
    Glsl(u32),
    /// GLSL ES of the given version (100, 300, ...).
    Gles(u32),
    /// SPIR-V.
    SpirV,
}

/// A backend-specific shader. Shaders are pre-compiled for each backend.
#[derive(Debug, Clone, Copy)]
#[non_exhaustive]
pub enum Shader<'a> {
    /// GLSL source.
    Glsl(ShaderGlsl<'a>),
    /// SPIR-V modules.
    SpirV(ShaderSpirV<'a>),
}

/// A GLSL / GLSL ES shader.
#[derive(Debug, Clone, Copy)]
pub struct ShaderGlsl<'a> {
    /// The vertex shader source code.
    pub vertex: &'a str,
    /// The fragment shader source code.
    pub fragment: &'a str,
    /// The names of the binding variables, in binding order.
    pub bindings: &'a [&'a str],
}

/// A SPIR-V shader.
#[derive(Debug, Clone, Copy)]
pub struct ShaderSpirV<'a> {
    /// The SPIR-V bytecode of the vertex shader.
    pub vertex_module: &'a [u32],
    /// The entry point of the vertex shader.
    pub vertex_entry: &'a str,
    /// The SPIR-V bytecode of the fragment shader.
    pub fragment_module: &'a [u32],
    /// The entry point of the fragment shader.
    pub fragment_entry: &'a str,
}

impl<'a> From<ShaderGlsl<'a>> for Shader<'a> {
    fn from(value: ShaderGlsl<'a>) -> (r: Self) {
        Shader::Glsl(value)
    }
}

impl<'a> vstd::std_specs::convert::FromSpecImpl<ShaderGlsl<'a>> for Shader<'a> {
    open spec fn obeys_from_spec() -> bool {
        true
    }

    open spec fn from_spec(value: ShaderGlsl<'a>) -> Self {
        Shader::Glsl(value)
    }
}

impl<'a> From<ShaderSpirV<'a>> for Shader<'a> {
    fn from(value: ShaderSpirV<'a>) -> (r: Self) {
        Shader::SpirV(value)
    }
}

impl<'a> vstd::std_specs::convert::FromSpecImpl<ShaderSpirV<'a>> for Shader<'a> {
    open spec fn obeys_from_spec() -> bool {
        true
    }

    open spec fn from_spec(value: ShaderSpirV<'a>) -> Self {
        Shader::SpirV(value)
    }
}

} // verus!
