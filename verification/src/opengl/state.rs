use vstd::prelude::*;
use crate::error::Error;
use crate::opengl::bindings::{
    bindings_owned, plan_draw_bindings, spec_binding_owner, spec_bindings_owned, spec_plan_draw_bindings,
    BindAction, BindingDesc, ProgramBinding,
};
use crate::ownership::check_owner;
use crate::opengl::features::Features;
use crate::texture::TextureBounds;

verus! {

/// The render state last set on the context, so that a state that is already set is not
/// set again. `None` means that the state is unknown.
#[derive(Debug, Clone, Copy, PartialEq, Eq, Structural)]
pub struct RenderCache {
    /// The program in use.
    pub last_pipeline: Option<u32>,
    /// The viewport.
    pub last_viewport: Option<TextureBounds>,
    /// The scissor rectangle; `Some(None)` when scissoring is disabled.
    pub last_scissor: Option<Option<TextureBounds>>,
    /// The bound framebuffer; `Some(None)` for the screen.
    pub last_framebuffer: Option<Option<u32>>,
    /// Whether depth writes are enabled.
    pub last_depth_write: Option<bool>,
}

/// The state changes that a draw call makes.
#[derive(Debug, Clone, Copy, PartialEq, Eq, Structural)]
pub struct DrawChanges {
    /// The draw call draws nothing, and nothing is changed.
    pub skip: bool,
    /// The target framebuffer must be bound.
    pub bind_framebuffer: bool,
    /// The pipeline must be applied (which also sets its depth write flag).
    pub apply_pipeline: bool,
    /// The pipeline stays, but its depth write flag must be set again.
    pub set_depth_write: bool,
    /// The viewport must be set.
    pub set_viewport: bool,
    /// The scissor state must be set.
    pub set_scissor: bool,
}

/// The state changes that a clear makes, and what it clears.
#[derive(Debug, Clone, Copy, PartialEq, Eq, Structural)]
pub struct ClearChanges {
    /// The target framebuffer must be bound.
    pub bind_framebuffer: bool,
    /// The scissor state must be set.
    pub set_scissor: bool,
    /// Depth writes must be enabled, so that the depth clear takes effect.
    pub set_depth_write: bool,
    /// The color attachments are cleared.
    pub clear_color: bool,
    /// The depth attachment is cleared.
    pub clear_depth: bool,
    /// The stencil attachment is cleared.
    pub clear_stencil: bool,
}

impl RenderCache {
    /// A cache in which every state is unknown.
    pub fn new() -> (r: Self)
        ensures
            r == (RenderCache {
                last_pipeline: None,
                last_viewport: None,
                last_scissor: None,
                last_framebuffer: None,
                last_depth_write: None,
            }),
    {
        RenderCache {
            last_pipeline: None,
            last_viewport: None,
            last_scissor: None,
            last_framebuffer: None,
            last_depth_write: None,
        }
    }

    /// Records that `framebuffer` is bound, and returns whether it was not bound already.
    pub fn use_framebuffer(&mut self, framebuffer: Option<u32>) -> (changed: bool)
        ensures
            changed == (old(self).last_framebuffer != Some(framebuffer)),
            *final(self) == (RenderCache { last_framebuffer: Some(framebuffer), ..*old(self) }),
    {
        let changed = self.last_framebuffer != Some(framebuffer);
        self.last_framebuffer = Some(framebuffer);
        changed
    }

    /// Records that `pipeline` is in use, and returns whether it was not in use already.
    pub fn use_pipeline(&mut self, pipeline: u32) -> (changed: bool)
        ensures
            changed == (old(self).last_pipeline != Some(pipeline)),
            *final(self) == (RenderCache { last_pipeline: Some(pipeline), ..*old(self) }),
    {
        let changed = self.last_pipeline != Some(pipeline);
        self.last_pipeline = Some(pipeline);
        changed
    }

    /// Records that `viewport` is set, and returns whether it was not set already.
    pub fn use_viewport(&mut self, viewport: TextureBounds) -> (changed: bool)
        ensures
            changed == (old(self).last_viewport != Some(viewport)),
            *final(self) == (RenderCache { last_viewport: Some(viewport), ..*old(self) }),
    {
        let changed = self.last_viewport != Some(viewport);
        self.last_viewport = Some(viewport);
        changed
    }

    /// Records that `scissor` is set (`None` disables scissoring), and returns whether it
    /// was not set already.
    pub fn use_scissor(&mut self, scissor: Option<TextureBounds>) -> (changed: bool)
        ensures
            changed == (old(self).last_scissor != Some(scissor)),
            *final(self) == (RenderCache { last_scissor: Some(scissor), ..*old(self) }),
    {
        let changed = self.last_scissor != Some(scissor);
        self.last_scissor = Some(scissor);
        changed
    }

    /// Decides the state changes of a draw call of `vertices` vertices with a pipeline
    /// whose depth write flag is `depth_write`: a call without vertices changes nothing;
    /// otherwise each of the target, the pipeline, the viewport and the scissor is set
    /// when it differs from the state last set, the depth write flag is set again when the
    /// pipeline stays but the flag was changed since, and all is recorded.
    pub fn begin_draw(
        &mut self,
        vertices: u32,
        framebuffer: Option<u32>,
        pipeline: u32,
        depth_write: bool,
        viewport: TextureBounds,
        scissor: Option<TextureBounds>,
    ) -> (r: DrawChanges)
        ensures
            (r, *final(self)) == spec_begin_draw(
                *old(self),
                vertices,
                framebuffer,
                pipeline,
                depth_write,
                viewport,
                scissor,
            ),
    {
        if vertices == 0 {
            return DrawChanges {
                skip: true,
                bind_framebuffer: false,
                apply_pipeline: false,
                set_depth_write: false,
                set_viewport: false,
                set_scissor: false,
            };
        }
        let bind_framebuffer = self.use_framebuffer(framebuffer);
        let apply_pipeline = self.use_pipeline(pipeline);
        let set_depth_write = !apply_pipeline && self.last_depth_write != Some(depth_write);
        self.last_depth_write = Some(depth_write);
        let set_viewport = self.use_viewport(viewport);
        let set_scissor = self.use_scissor(scissor);
        DrawChanges { skip: false, bind_framebuffer, apply_pipeline, set_depth_write, set_viewport, set_scissor }
    }

    /// Plans a draw call: the provided resources are checked against the pipeline's
    /// bindings first, whatever the number of vertices; on failure nothing changes.
    /// Otherwise the state changes are decided as [`RenderCache::begin_draw`] does, and
    /// the bindings to make are returned with them.
    pub fn plan_draw(
        &mut self,
        features: &Features,
        program: &Vec<ProgramBinding>,
        provided: &Vec<BindingDesc>,
        vertices: u32,
        framebuffer: Option<u32>,
        pipeline: u32,
        depth_write: bool,
        viewport: TextureBounds,
        scissor: Option<TextureBounds>,
    ) -> (r: Result<(DrawChanges, Vec<BindAction>), Error>)
        ensures
            match spec_plan_draw_bindings(*features, program@, provided@, framebuffer) {
                Err(e) => (r matches Err(f) && f == e) && *final(self) == *old(self),
                Ok(actions) => r matches Ok((changes, v)) && v@ == actions && (changes, *final(self))
                    == spec_begin_draw(*old(self), vertices, framebuffer, pipeline, depth_write, viewport, scissor),
            },
    {
        let actions = match plan_draw_bindings(features, program, provided, framebuffer) {
            Ok(actions) => actions,
            Err(e) => return Err(e),
        };
        let changes = self.begin_draw(vertices, framebuffer, pipeline, depth_write, viewport, scissor);
        Ok((changes, actions))
    }

    /// Plans a draw call on the context `context`: the target framebuffer, the pipeline
    /// and every resource provided for its bindings must have been made by that context
    /// (`InvalidResource` otherwise, with nothing changed); then as
    /// [`RenderCache::plan_draw`].
    pub fn plan_owned_draw(
        &mut self,
        context: u64,
        target_owner: u64,
        pipeline_owner: u64,
        features: &Features,
        program: &Vec<ProgramBinding>,
        provided: &Vec<BindingDesc>,
        vertices: u32,
        framebuffer: Option<u32>,
        pipeline: u32,
        depth_write: bool,
        viewport: TextureBounds,
        scissor: Option<TextureBounds>,
    ) -> (r: Result<(DrawChanges, Vec<BindAction>), Error>)
        ensures
            !spec_draw_owned(context, target_owner, pipeline_owner, provided@) ==> (r matches Err(e) && e
                == Error::InvalidResource) && *final(self) == *old(self),
            spec_draw_owned(context, target_owner, pipeline_owner, provided@) ==> match spec_plan_draw_bindings(
                *features,
                program@,
                provided@,
                framebuffer,
            ) {
                Err(e) => (r matches Err(f) && f == e) && *final(self) == *old(self),
                Ok(actions) => r matches Ok((changes, v)) && v@ == actions && (changes, *final(self))
                    == spec_begin_draw(*old(self), vertices, framebuffer, pipeline, depth_write, viewport, scissor),
            },
    {
        if target_owner != context || pipeline_owner != context || !bindings_owned(context, provided) {
            return Err(Error::InvalidResource);
        }
        self.plan_draw(
            features,
            program,
            provided,
            vertices,
            framebuffer,
            pipeline,
            depth_write,
            viewport,
            scissor,
        )
    }

    /// Decides a clear on the context `context`: the target framebuffer must have been
    /// made by that context (`InvalidResource` otherwise, with nothing changed); then as
    /// [`RenderCache::begin_clear`].
    pub fn begin_owned_clear(
        &mut self,
        context: u64,
        target_owner: u64,
        framebuffer: Option<u32>,
        scissor: Option<TextureBounds>,
        color: bool,
        depth: bool,
        stencil: bool,
    ) -> (r: Result<ClearChanges, Error>)
        ensures
            target_owner != context ==> r == Err::<ClearChanges, Error>(Error::InvalidResource) && *final(self)
                == *old(self),
            target_owner == context ==> (r matches Ok(changes) && (changes, *final(self)) == spec_begin_clear(
                *old(self),
                framebuffer,
                scissor,
                color,
                depth,
                stencil,
            )),
    {
        match check_owner(context, target_owner) {
            Err(e) => Err(e),
            Ok(()) => Ok(self.begin_clear(framebuffer, scissor, color, depth, stencil)),
        }
    }

    /// Decides the state changes of a clear, and what it clears: the target and the
    /// scissor are each set when they differ from the state last set; a depth clear needs
    /// depth writes enabled, which are enabled when they may not be; all is recorded.
    pub fn begin_clear(
        &mut self,
        framebuffer: Option<u32>,
        scissor: Option<TextureBounds>,
        color: bool,
        depth: bool,
        stencil: bool,
    ) -> (r: ClearChanges)
        ensures
            (r, *final(self)) == spec_begin_clear(*old(self), framebuffer, scissor, color, depth, stencil),
    {
        let bind_framebuffer = self.use_framebuffer(framebuffer);
        let set_scissor = self.use_scissor(scissor);
        let set_depth_write = depth && self.last_depth_write != Some(true);
        if depth {
            self.last_depth_write = Some(true);
        }
        ClearChanges {
            bind_framebuffer,
            set_scissor,
            set_depth_write,
            clear_color: color,
            clear_depth: depth,
            clear_stencil: stencil,
        }
    }
}

/// The state changes of a draw call, and the cache after it.
pub open spec fn spec_begin_draw(
    cache: RenderCache,
    vertices: u32,
    framebuffer: Option<u32>,
    pipeline: u32,
    depth_write: bool,
    viewport: TextureBounds,
    scissor: Option<TextureBounds>,
) -> (DrawChanges, RenderCache) {
    if vertices == 0 {
        (
            DrawChanges {
                skip: true,
                bind_framebuffer: false,
                apply_pipeline: false,
                set_depth_write: false,
                set_viewport: false,
                set_scissor: false,
            },
            cache,
        )
    } else {
        (
            DrawChanges {
                skip: false,
                bind_framebuffer: cache.last_framebuffer != Some(framebuffer),
                apply_pipeline: cache.last_pipeline != Some(pipeline),
                set_depth_write: cache.last_pipeline == Some(pipeline) && cache.last_depth_write != Some(
                    depth_write,
                ),
                set_viewport: cache.last_viewport != Some(viewport),
                set_scissor: cache.last_scissor != Some(scissor),
            },
            RenderCache {
                last_pipeline: Some(pipeline),
                last_viewport: Some(viewport),
                last_scissor: Some(scissor),
                last_framebuffer: Some(framebuffer),
                last_depth_write: Some(depth_write),
            },
        )
    }
}

/// The state changes of a clear, and the cache after it.
pub open spec fn spec_begin_clear(
    cache: RenderCache,
    framebuffer: Option<u32>,
    scissor: Option<TextureBounds>,
    color: bool,
    depth: bool,
    stencil: bool,
) -> (ClearChanges, RenderCache) {
    (
        ClearChanges {
            bind_framebuffer: cache.last_framebuffer != Some(framebuffer),
            set_scissor: cache.last_scissor != Some(scissor),
            set_depth_write: depth && cache.last_depth_write != Some(true),
            clear_color: color,
            clear_depth: depth,
            clear_stencil: stencil,
        },
        RenderCache {
            last_scissor: Some(scissor),
            last_framebuffer: Some(framebuffer),
            last_depth_write: if depth { Some(true) } else { cache.last_depth_write },
            ..cache
        },
    )
}

/// Law: a draw call that repeats the previous one (same target, pipeline, viewport and
/// scissor) changes no state and leaves the cache as it is.
pub proof fn law_repeated_draw_changes_nothing(
    cache: RenderCache,
    vertices: u32,
    framebuffer: Option<u32>,
    pipeline: u32,
    depth_write: bool,
    viewport: TextureBounds,
    scissor: Option<TextureBounds>,
)
    ensures
        ({
            let (_, after) = spec_begin_draw(cache, vertices, framebuffer, pipeline, depth_write, viewport, scissor);
            let (again, after_again) = spec_begin_draw(
                after,
                vertices,
                framebuffer,
                pipeline,
                depth_write,
                viewport,
                scissor,
            );
            &&& !again.bind_framebuffer
            &&& !again.apply_pipeline
            &&& !again.set_depth_write
            &&& !again.set_viewport
            &&& !again.set_scissor
            &&& after_again == after
        }),
{
}

/// Law: after a draw call, a clear of the same target with the same scissor that does not
/// clear depth changes no state and leaves the cache as it is.
pub proof fn law_clear_after_draw_keeps_target(
    cache: RenderCache,
    vertices: u32,
    framebuffer: Option<u32>,
    pipeline: u32,
    depth_write: bool,
    viewport: TextureBounds,
    scissor: Option<TextureBounds>,
    color: bool,
    stencil: bool,
)
    requires
        vertices != 0,
    ensures
        ({
            let (_, after) = spec_begin_draw(cache, vertices, framebuffer, pipeline, depth_write, viewport, scissor);
            let (clear, after_clear) = spec_begin_clear(after, framebuffer, scissor, color, false, stencil);
            &&& !clear.bind_framebuffer
            &&& !clear.set_scissor
            &&& !clear.set_depth_write
            &&& after_clear == after
        }),
{
}

/// Law: a depth clear always takes effect: after it, depth writes are recorded enabled,
/// and they are enabled by it unless they were known to be; a later draw with a pipeline
/// that does not write depth, and that stays in use, sets its depth write flag again.
pub proof fn law_depth_clear_takes_effect(
    cache: RenderCache,
    framebuffer: Option<u32>,
    scissor: Option<TextureBounds>,
    color: bool,
    stencil: bool,
    vertices: u32,
    viewport: TextureBounds,
)
    requires
        vertices != 0,
        cache.last_pipeline is Some,
    ensures
        ({
            let (clear, after) = spec_begin_clear(cache, framebuffer, scissor, color, true, stencil);
            let (draw, after_draw) = spec_begin_draw(
                after,
                vertices,
                framebuffer,
                cache.last_pipeline->0,
                false,
                viewport,
                scissor,
            );
            &&& clear.clear_depth
            &&& clear.set_depth_write == (cache.last_depth_write != Some(true))
            &&& after.last_depth_write == Some(true)
            &&& !draw.apply_pipeline
            &&& draw.set_depth_write
            &&& after_draw.last_depth_write == Some(false)
        }),
{
}


/// A draw call on the context `context` uses only resources of that context: its target,
/// its pipeline and every resource provided for its bindings.
pub open spec fn spec_draw_owned(
    context: u64,
    target_owner: u64,
    pipeline_owner: u64,
    provided: Seq<BindingDesc>,
) -> bool {
    target_owner == context && pipeline_owner == context && spec_bindings_owned(context, provided)
}

/// Law: a draw call whose target, pipeline or any bound resource was made by another
/// context is not a draw of that context, whatever else it holds.
pub proof fn law_foreign_draw_refused(
    context: u64,
    target_owner: u64,
    pipeline_owner: u64,
    provided: Seq<BindingDesc>,
    i: int,
)
    requires
        target_owner != context || pipeline_owner != context || (0 <= i < provided.len()
            && spec_binding_owner(provided[i]) != context),
    ensures
        !spec_draw_owned(context, target_owner, pipeline_owner, provided),
{
}


/// Law: a draw call with vertices leaves the target, the pipeline, the viewport and the
/// scissor as it asks, setting each only when the recorded state differs; the depth write
/// flag ends as the pipeline's, set by applying the pipeline or on its own, never both and
/// never needlessly; afterwards the cache records exactly what the draw asked. A draw
/// without vertices changes nothing.
pub proof fn law_draw_leaves_state_as_asked(
    cache: RenderCache,
    vertices: u32,
    framebuffer: Option<u32>,
    pipeline: u32,
    depth_write: bool,
    viewport: TextureBounds,
    scissor: Option<TextureBounds>,
)
    ensures
        ({
            let (c, after) = spec_begin_draw(cache, vertices, framebuffer, pipeline, depth_write, viewport, scissor);
            &&& vertices == 0 ==> c.skip && !c.bind_framebuffer && !c.apply_pipeline && !c.set_depth_write
                && !c.set_viewport && !c.set_scissor && after == cache
            &&& vertices != 0 ==> {
                &&& !c.skip
                &&& c.bind_framebuffer == (cache.last_framebuffer != Some(framebuffer))
                &&& c.apply_pipeline == (cache.last_pipeline != Some(pipeline))
                &&& c.set_viewport == (cache.last_viewport != Some(viewport))
                &&& c.set_scissor == (cache.last_scissor != Some(scissor))
                &&& c.apply_pipeline || c.set_depth_write || cache.last_depth_write == Some(depth_write)
                &&& !(c.apply_pipeline && c.set_depth_write)
                &&& c.set_depth_write ==> cache.last_depth_write != Some(depth_write)
                &&& after == (RenderCache {
                    last_pipeline: Some(pipeline),
                    last_viewport: Some(viewport),
                    last_scissor: Some(scissor),
                    last_framebuffer: Some(framebuffer),
                    last_depth_write: Some(depth_write),
                })
            }
        }),
{
}

/// Law: a clear leaves the target and the scissor as it asks, setting each only when the
/// recorded state differs; it clears exactly the buffers it is given values for; a depth
/// clear ends with depth writes enabled, enabling them only when they may not be, and a
/// clear without depth leaves them alone; the pipeline and the viewport stay as they are.
pub proof fn law_clear_leaves_state_as_asked(
    cache: RenderCache,
    framebuffer: Option<u32>,
    scissor: Option<TextureBounds>,
    color: bool,
    depth: bool,
    stencil: bool,
)
    ensures
        ({
            let (c, after) = spec_begin_clear(cache, framebuffer, scissor, color, depth, stencil);
            &&& c.bind_framebuffer == (cache.last_framebuffer != Some(framebuffer))
            &&& c.set_scissor == (cache.last_scissor != Some(scissor))
            &&& c.clear_color == color && c.clear_depth == depth && c.clear_stencil == stencil
            &&& depth ==> (c.set_depth_write || cache.last_depth_write == Some(true)) && after.last_depth_write
                == Some(true)
            &&& c.set_depth_write ==> depth && cache.last_depth_write != Some(true)
            &&& !depth ==> after.last_depth_write == cache.last_depth_write
            &&& after.last_framebuffer == Some(framebuffer) && after.last_scissor == Some(scissor)
            &&& after.last_pipeline == cache.last_pipeline && after.last_viewport == cache.last_viewport
        }),
{
}

} // verus!
