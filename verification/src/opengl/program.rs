use vstd::prelude::*;
use crate::error::Error;
use crate::shader::{CompileStage, Shader, ShaderGlsl};

verus! {

/// The GLSL source of a shader: the OpenGL backend accepts nothing else
/// (`UnsupportedFormat`).
pub open spec fn spec_glsl_source<'a>(shader: Shader<'a>) -> Result<ShaderGlsl<'a>, Error> {
    match shader {
        Shader::Glsl(source) => Ok(source),
        _ => Err(Error::UnsupportedFormat),
    }
}

/// Takes the GLSL source out of a shader.
pub fn glsl_source<'a>(shader: Shader<'a>) -> (r: Result<ShaderGlsl<'a>, Error>)
    ensures
        r == spec_glsl_source(shader),
{
    match shader {
        Shader::Glsl(source) => Ok(source),
        _ => Err(Error::UnsupportedFormat),
    }
}

/// The program is linked only when both of its stages compiled.
pub open spec fn spec_should_link(vertex_compiled: bool, fragment_compiled: bool) -> bool {
    vertex_compiled && fragment_compiled
}

/// Whether to link a program, given whether each of its stages compiled.
pub fn should_link(vertex_compiled: bool, fragment_compiled: bool) -> (r: bool)
    ensures
        r == spec_should_link(vertex_compiled, fragment_compiled),
{
    vertex_compiled && fragment_compiled
}

/// The outcome of building a program, from the log of each stage that failed: the vertex
/// stage is reported before the fragment stage, and both before linking.
pub open spec fn spec_build_outcome(
    vertex_log: Option<String>,
    fragment_log: Option<String>,
    link_log: Option<String>,
) -> Result<(), Error> {
    match (vertex_log, fragment_log, link_log) {
        (Some(log), _, _) => Err(Error::Compile(CompileStage::Vertex, log)),
        (None, Some(log), _) => Err(Error::Compile(CompileStage::Fragment, log)),
        (None, None, Some(log)) => Err(Error::Compile(CompileStage::Linking, log)),
        (None, None, None) => Ok(()),
    }
}

/// Decides the outcome of building a program from the log of each stage that failed
/// (`None` for a stage that succeeded or did not run).
pub fn build_outcome(vertex_log: Option<String>, fragment_log: Option<String>, link_log: Option<String>) -> (r: Result<
    (),
    Error,
>)
    ensures
        r == spec_build_outcome(vertex_log, fragment_log, link_log),
{
    match (vertex_log, fragment_log, link_log) {
        (Some(log), _, _) => Err(Error::Compile(CompileStage::Vertex, log)),
        (None, Some(log), _) => Err(Error::Compile(CompileStage::Fragment, log)),
        (None, None, Some(log)) => Err(Error::Compile(CompileStage::Linking, log)),
        (None, None, None) => Ok(()),
    }
}


/// Law: building a program fails on its first failing step, in the order vertex stage,
/// fragment stage, linking, with that step's log; it succeeds exactly when no step
/// failed; and a program is linked only when both of its stages compiled.
pub proof fn law_build_reports_first_failure(
    vertex_log: Option<String>,
    fragment_log: Option<String>,
    link_log: Option<String>,
)
    ensures
        vertex_log matches Some(log) ==> spec_build_outcome(vertex_log, fragment_log, link_log) == Err::<(), Error>(
            Error::Compile(CompileStage::Vertex, log),
        ),
        vertex_log is None ==> (fragment_log matches Some(log) ==> spec_build_outcome(
            vertex_log,
            fragment_log,
            link_log,
        ) == Err::<(), Error>(Error::Compile(CompileStage::Fragment, log))),
        vertex_log is None && fragment_log is None ==> (link_log matches Some(log) ==> spec_build_outcome(
            vertex_log,
            fragment_log,
            link_log,
        ) == Err::<(), Error>(Error::Compile(CompileStage::Linking, log))),
        spec_build_outcome(vertex_log, fragment_log, link_log) is Ok <==> (vertex_log is None && fragment_log is None
            && link_log is None),
        spec_should_link(vertex_log is None, fragment_log is None) <==> (vertex_log is None && fragment_log is None),
{
}

} // verus!
