# picogpu

A small GPU abstraction layer. The library (`src/`) holds the resource descriptions and
their builders, and the rules that a backend applies before it talks to the GPU, each with a
contract that Verus proves:

- `buffer`, `texture`, `framebuffer`, `shader`, `pipeline`, `query`, `error`: the resource
  layouts, formats and builders, and the error type with its messages.
- `ownership`: the rule that a context refuses resources made by another context
  (`InvalidResource`); each operation of the OpenGL backend has a variant that checks it first.
- `raster`: the fixed-function state (stencil, culling, blending, depth) that a pipeline
  layout sets.
- `opengl`: feature detection from a context's version, extensions and parameters;
  validation of resource creation, uploads, downloads and copies; assignment of pipeline
  bindings and their resolution at draw time; the query state machine; the render state
  cache; fence waits.
- `vulkan`: the shader format it accepts (SPIR-V only), memory type selection, host
  access checks, and the mapping of Vulkan results to errors.

`app/` holds the backends themselves: the `Context` trait and the OpenGL backend, complete,
which drives a `glow` context with the library's decisions. For Vulkan it holds only the
conversions of the library's types to `ash` values; there is no Vulkan `Context` yet, and
no Metal backend.
