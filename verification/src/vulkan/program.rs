use vstd::prelude::*;
use crate::error::Error;
use crate::opengl::program::spec_glsl_source;
use crate::shader::{Shader, ShaderSpirV};

verus! {

/// The SPIR-V modules of a shader: the Vulkan backend accepts nothing else
/// (`UnsupportedFormat`).
pub open spec fn spec_spirv_source<'a>(shader: Shader<'a>) -> Result<ShaderSpirV<'a>, Error> {
    match shader {
        Shader::SpirV(source) => Ok(source),
        _ => Err(Error::UnsupportedFormat),
    }
}

/// Takes the SPIR-V modules out of a shader.
pub fn spirv_source<'a>(shader: Shader<'a>) -> (r: Result<ShaderSpirV<'a>, Error>)
    ensures
        r == spec_spirv_source(shader),
{
    match shader {
        Shader::SpirV(source) => Ok(source),
        _ => Err(Error::UnsupportedFormat),
    }
}

/// Law: every shader is accepted by exactly one of the OpenGL and Vulkan backends, and
/// the other refuses it with `UnsupportedFormat`.
pub proof fn law_each_shader_has_one_backend(shader: Shader)
    ensures
        spec_glsl_source(shader) is Ok <==> spec_spirv_source(shader) is Err,
        spec_glsl_source(shader) is Err ==> spec_glsl_source(shader) == Err::<crate::shader::ShaderGlsl, Error>(
            Error::UnsupportedFormat,
        ),
        spec_spirv_source(shader) is Err ==> spec_spirv_source(shader) == Err::<ShaderSpirV, Error>(
            Error::UnsupportedFormat,
        ),
{
}

} // verus!
