use vstd::prelude::*;

verus! {

/// The kind of a profiling query.
#[derive(Debug, Clone, Copy, PartialEq, Eq, Structural)]
pub enum QueryType {
    /// The time elapsed between the start and the end of the query, in nanoseconds.
    Elapsed,
    /// The number of primitives (triangles) generated.
    Primitives,
    /// Whether samples passed the depth and stencil tests.
    Occlusion(OcclusionTest),
}

/// The kind of occlusion query.
#[derive(Debug, Clone, Copy, PartialEq, Eq, Structural)]
pub enum OcclusionTest {
    /// The exact number of samples that passed.
    Samples,
    /// Whether any sample passed (0 if none did).
    Exact,
    /// Whether any sample passed; fastest, but may report false positives.
    Conservative,
}

} // verus!
