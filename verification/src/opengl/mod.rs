//! The rules of the OpenGL backend: feature detection, resource validation, binding
//! assignment and resolution, query and render state tracking, program building and fence
//! waits.

pub mod features;
pub mod resources;
pub mod bindings;
pub mod queries;
pub mod state;
pub mod program;
pub mod surface;
pub mod sync;
pub mod dispose;
