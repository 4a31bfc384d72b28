use vstd::prelude::*;
use crate::pipeline::{
    stencil_face_disabled, BlendFactor, BlendMode, BlendOp, CompareFn, PipelineLayout, PrimitiveTopology, StencilFace,
    StencilOp,
};

verus! {

/// Which triangles are culled, with counter-clockwise triangles as front faces.
#[derive(Debug, Clone, Copy, PartialEq, Eq, Structural)]
pub enum CullFace {
    /// Front (counter-clockwise) faces.
    Front,
    /// Back (clockwise) faces.
    Back,
    /// Both.
    FrontAndBack,
}

/// The stencil state of both faces, with counter-clockwise triangles as front faces.
#[derive(Debug, Clone, Copy, PartialEq, Eq, Structural)]
pub struct StencilPlan {
    /// The state of front (counter-clockwise) faces.
    pub front: StencilFace,
    /// The state of back (clockwise) faces.
    pub back: StencilFace,
}

/// The fixed-function state that a pipeline sets: each test or stage that is `None` is
/// disabled.
#[derive(Debug, Clone, Copy, PartialEq, Eq, Structural)]
pub struct RasterPlan {
    /// The stencil test.
    pub stencil: Option<StencilPlan>,
    /// Face culling.
    pub cull: Option<CullFace>,
    /// Color blending.
    pub blend: Option<BlendMode>,
    /// Whether depth is written.
    pub depth_write: bool,
    /// The depth test.
    pub depth_test: Option<CompareFn>,
    /// How vertices are read as triangles.
    pub topology: PrimitiveTopology,
}

/// Culling as the two winding flags ask for it: counter-clockwise triangles are front
/// faces, clockwise triangles back faces.
pub open spec fn spec_cull_face(cull_ccw: bool, cull_cw: bool) -> Option<CullFace> {
    match (cull_ccw, cull_cw) {
        (true, true) => Some(CullFace::FrontAndBack),
        (true, false) => Some(CullFace::Front),
        (false, true) => Some(CullFace::Back),
        (false, false) => None,
    }
}

/// The fixed-function state of a pipeline layout: stencil testing is enabled unless both
/// faces are the disabled face; culling follows the winding flags; blending is enabled
/// unless the mode overwrites; depth testing is enabled unless it always passes.
pub open spec fn spec_raster_plan(layout: PipelineLayout) -> RasterPlan {
    RasterPlan {
        stencil: if layout.stencil_cw == stencil_face_disabled() && layout.stencil_ccw == stencil_face_disabled() {
            None
        } else {
            Some(StencilPlan { front: layout.stencil_ccw, back: layout.stencil_cw })
        },
        cull: spec_cull_face(layout.cull_ccw, layout.cull_cw),
        blend: if layout.color_blend == BlendMode::spec_overwrite() {
            None
        } else {
            Some(layout.color_blend)
        },
        depth_write: layout.depth_write,
        depth_test: if layout.depth_test == CompareFn::Always {
            None
        } else {
            Some(layout.depth_test)
        },
        topology: layout.topology,
    }
}

/// Decides which triangles to cull from the two winding flags.
pub fn cull_face(cull_ccw: bool, cull_cw: bool) -> (r: Option<CullFace>)
    ensures
        r == spec_cull_face(cull_ccw, cull_cw),
{
    match (cull_ccw, cull_cw) {
        (true, true) => Some(CullFace::FrontAndBack),
        (true, false) => Some(CullFace::Front),
        (false, true) => Some(CullFace::Back),
        (false, false) => None,
    }
}

impl RasterPlan {
    /// Decides the fixed-function state that a pipeline with this layout sets.
    pub fn from_layout(layout: &PipelineLayout) -> (r: RasterPlan)
        ensures
            r == spec_raster_plan(*layout),
    {
        let disabled = StencilFace::default();
        let stencil = if layout.stencil_cw == disabled && layout.stencil_ccw == disabled {
            None
        } else {
            Some(StencilPlan { front: layout.stencil_ccw, back: layout.stencil_cw })
        };
        let blend = if layout.color_blend == BlendMode::overwrite() {
            None
        } else {
            Some(layout.color_blend)
        };
        let depth_test = if layout.depth_test == CompareFn::Always {
            None
        } else {
            Some(layout.depth_test)
        };
        RasterPlan {
            stencil,
            cull: cull_face(layout.cull_ccw, layout.cull_cw),
            blend,
            depth_write: layout.depth_write,
            depth_test,
            topology: layout.topology,
        }
    }
}

/// Law: a pipeline layout fresh from `PipelineLayout::new` sets no stencil test, no
/// culling, no blending, no depth test and no depth write, and draws triangle lists.
pub proof fn law_default_layout_disables_everything(layout: PipelineLayout)
    requires
        layout.color_blend == BlendMode::spec_overwrite(),
        layout.depth_test == CompareFn::Always,
        !layout.depth_write,
        layout.stencil_ccw == stencil_face_disabled(),
        layout.stencil_cw == stencil_face_disabled(),
        !layout.cull_ccw,
        !layout.cull_cw,
        layout.topology == PrimitiveTopology::TriangleList,
    ensures
        spec_raster_plan(layout) == (RasterPlan {
            stencil: None,
            cull: None,
            blend: None,
            depth_write: false,
            depth_test: None,
            topology: PrimitiveTopology::TriangleList,
        }),
{
}

/// Whether culling discards counter-clockwise (front) triangles.
pub open spec fn culls_ccw(cull: Option<CullFace>) -> bool {
    cull == Some(CullFace::Front) || cull == Some(CullFace::FrontAndBack)
}

/// Whether culling discards clockwise (back) triangles.
pub open spec fn culls_cw(cull: Option<CullFace>) -> bool {
    cull == Some(CullFace::Back) || cull == Some(CullFace::FrontAndBack)
}

/// Law: a pipeline discards counter-clockwise triangles exactly when `cull_ccw` asks for
/// it, and clockwise triangles exactly when `cull_cw` does.
pub proof fn law_culling_follows_winding_flags(layout: PipelineLayout)
    ensures
        culls_ccw(spec_raster_plan(layout).cull) == layout.cull_ccw,
        culls_cw(spec_raster_plan(layout).cull) == layout.cull_cw,
{
}


/// Law: a pipeline tests stencil exactly when one of its faces asks for more than the
/// face that keeps everything and always passes, with the counter-clockwise face in front;
/// it blends exactly when its mode does more than replace the destination with the
/// source, in that mode; it tests depth exactly when the test can fail, with that test;
/// and it writes depth and reads vertices as the layout says.
pub proof fn law_raster_plan_follows_layout(layout: PipelineLayout)
    ensures
        ({
            let plan = spec_raster_plan(layout);
            let keep = StencilFace {
                mask: 0,
                reference: 0,
                compare: CompareFn::Always,
                pass_op: StencilOp::Keep,
                fail_op: StencilOp::Keep,
                depth_fail_op: StencilOp::Keep,
            };
            let replace = BlendMode {
                color_src: BlendFactor::One,
                color_dst: BlendFactor::Zero,
                color_op: BlendOp::Add,
                alpha_src: BlendFactor::One,
                alpha_dst: BlendFactor::Zero,
                alpha_op: BlendOp::Add,
            };
            &&& (layout.stencil_ccw == keep && layout.stencil_cw == keep) ==> plan.stencil is None
            &&& !(layout.stencil_ccw == keep && layout.stencil_cw == keep) ==> plan.stencil == Some(
                StencilPlan { front: layout.stencil_ccw, back: layout.stencil_cw },
            )
            &&& layout.color_blend == replace ==> plan.blend is None
            &&& layout.color_blend != replace ==> plan.blend == Some(layout.color_blend)
            &&& layout.depth_test == CompareFn::Always ==> plan.depth_test is None
            &&& layout.depth_test != CompareFn::Always ==> plan.depth_test == Some(layout.depth_test)
            &&& plan.depth_write == layout.depth_write
            &&& plan.topology == layout.topology
        }),
{
}

} // verus!
