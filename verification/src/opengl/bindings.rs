use vstd::prelude::*;
use crate::buffer::BufferRole;
use crate::error::Error;
use crate::framebuffer::FramebufferAttachment;
use crate::opengl::features::Features;
use crate::opengl::resources::{aligned, multiple_of, is_multiple_of_u64, role_alignment, BufferDesc, FramebufferDesc};

verus! {

/// How a binding of a pipeline is bound at draw time.
#[derive(Debug, Clone, Copy, PartialEq, Eq, Structural)]
pub enum ProgramBinding {
    /// The name is not a resource of the program; nothing is bound.
    Unbound,
    /// A uniform or storage block with the given block index and minimum data size.
    Buffer { index: u32, size: u32, role: BufferRole },
    /// A 2D sampler that reads from the given texture unit.
    Texture2D { index: u32 },
}

/// What the program reports about one binding name.
#[derive(Debug, Clone, Copy)]
pub struct BindingProbe {
    /// Block index and data size, when the name is a uniform block.
    pub uniform_block: Option<(u32, u32)>,
    /// Block index and data size, when the name is a storage block.
    pub storage_block: Option<(u32, u32)>,
    /// Whether the name is a uniform of type `sampler2D`.
    pub sampler_2d: bool,
}

/// The number of texture units, uniform blocks and storage blocks assigned so far.
#[derive(Debug, Clone, Copy, PartialEq, Eq, Structural)]
pub struct BindingCounters {
    /// Texture units assigned.
    pub texture: u32,
    /// Uniform blocks assigned.
    pub uniform: u32,
    /// Storage blocks assigned.
    pub storage: u32,
}

/// The outcome of assigning binding `i` after the bindings counted in `c`: a uniform
/// block takes precedence over a storage block, which takes precedence over a sampler;
/// each kind fails with `UnsupportedBinding(i)` once its limit is reached; a sampler
/// takes the next texture unit; anything else is unbound.
pub open spec fn spec_assign_step(features: Features, c: BindingCounters, i: int, probe: BindingProbe) -> Result<
    (ProgramBinding, BindingCounters),
    Error,
> {
    if features.uniform_buffers && probe.uniform_block is Some {
        let (index, size) = probe.uniform_block->0;
        if c.uniform >= features.max_uniform_buffer_bindings {
            Err(Error::UnsupportedBinding(i as usize))
        } else {
            Ok(
                (
                    ProgramBinding::Buffer { index, size, role: BufferRole::Uniform },
                    BindingCounters { uniform: (c.uniform + 1) as u32, ..c },
                ),
            )
        }
    } else if features.storage_buffers && probe.storage_block is Some {
        let (index, size) = probe.storage_block->0;
        if c.storage >= features.max_storage_buffer_bindings {
            Err(Error::UnsupportedBinding(i as usize))
        } else {
            Ok(
                (
                    ProgramBinding::Buffer { index, size, role: BufferRole::Storage },
                    BindingCounters { storage: (c.storage + 1) as u32, ..c },
                ),
            )
        }
    } else if probe.sampler_2d {
        if c.texture >= features.max_texture_image_units {
            Err(Error::UnsupportedBinding(i as usize))
        } else {
            Ok(
                (
                    ProgramBinding::Texture2D { index: c.texture },
                    BindingCounters { texture: (c.texture + 1) as u32, ..c },
                ),
            )
        }
    } else {
        Ok((ProgramBinding::Unbound, c))
    }
}

/// The outcome of assigning all bindings in order: the first failing binding decides the
/// error.
pub open spec fn spec_assign(features: Features, probes: Seq<BindingProbe>) -> Result<
    (Seq<ProgramBinding>, BindingCounters),
    Error,
>
    decreases probes.len(),
{
    if probes.len() == 0 {
        Ok((Seq::empty(), BindingCounters { texture: 0, uniform: 0, storage: 0 }))
    } else {
        match spec_assign(features, probes.drop_last()) {
            Err(e) => Err(e),
            Ok((bindings, c)) => match spec_assign_step(features, c, probes.len() - 1, probes.last()) {
                Err(e) => Err(e),
                Ok((b, c2)) => Ok((bindings.push(b), c2)),
            },
        }
    }
}

fn assign_step(features: &Features, c: &mut BindingCounters, i: usize, probe: BindingProbe) -> (r: Result<
    ProgramBinding,
    Error,
>)
    ensures
        match spec_assign_step(*features, *old(c), i as int, probe) {
            Ok((b, c2)) => r == Ok::<ProgramBinding, Error>(b) && *final(c) == c2,
            Err(e) => r == Err::<ProgramBinding, Error>(e),
        },
{
    if features.uniform_buffers && probe.uniform_block.is_some() {
        let (index, size) = probe.uniform_block.unwrap();
        if c.uniform >= features.max_uniform_buffer_bindings {
            return Err(Error::UnsupportedBinding(i));
        }
        c.uniform = c.uniform + 1;
        return Ok(ProgramBinding::Buffer { index, size, role: BufferRole::Uniform });
    }
    if features.storage_buffers && probe.storage_block.is_some() {
        let (index, size) = probe.storage_block.unwrap();
        if c.storage >= features.max_storage_buffer_bindings {
            return Err(Error::UnsupportedBinding(i));
        }
        c.storage = c.storage + 1;
        return Ok(ProgramBinding::Buffer { index, size, role: BufferRole::Storage });
    }
    if probe.sampler_2d {
        if c.texture >= features.max_texture_image_units {
            return Err(Error::UnsupportedBinding(i));
        }
        let index = c.texture;
        c.texture = c.texture + 1;
        return Ok(ProgramBinding::Texture2D { index });
    }
    Ok(ProgramBinding::Unbound)
}

/// Assigns each binding name of a program, in order, to a uniform block, a storage block,
/// a texture unit, or nothing, from what the program reports about each name.
pub fn prepare_pipeline_bindings(features: &Features, probes: &Vec<BindingProbe>) -> (r: Result<
    Vec<ProgramBinding>,
    Error,
>)
    ensures
        match spec_assign(*features, probes@) {
            Ok((bindings, _)) => r matches Ok(v) && v@ == bindings,
            Err(e) => r matches Err(f) && f == e,
        },
{
    let mut out: Vec<ProgramBinding> = Vec::new();
    let mut c = BindingCounters { texture: 0, uniform: 0, storage: 0 };
    let mut k: usize = 0;
    while k < probes.len()
        invariant
            k <= probes@.len(),
            spec_assign(*features, probes@.take(k as int)) == Ok::<
                (Seq<ProgramBinding>, BindingCounters),
                Error,
            >((out@, c)),
        decreases probes@.len() - k,
    {
        assert(probes@.take(k + 1).drop_last() =~= probes@.take(k as int));
        let step = assign_step(features, &mut c, k, probes[k]);
        match step {
            Ok(b) => {
                out.push(b);
            },
            Err(e) => {
                proof {
                    lemma_assign_error_persists(*features, probes@, k + 1);
                }
                return Err(e);
            },
        }
        k = k + 1;
    }
    assert(probes@.take(k as int) =~= probes@);
    Ok(out)
}

/// Once assigning a prefix fails, assigning any longer prefix fails with the same error.
proof fn lemma_assign_error_persists(features: Features, probes: Seq<BindingProbe>, k: int)
    requires
        0 <= k <= probes.len(),
        spec_assign(features, probes.take(k)) is Err,
    ensures
        spec_assign(features, probes) == spec_assign(features, probes.take(k)),
    decreases probes.len() - k,
{
    if k < probes.len() {
        assert(probes.take(k + 1).drop_last() =~= probes.take(k));
        lemma_assign_error_persists(features, probes, k + 1);
    } else {
        assert(probes.take(k) =~= probes);
    }
}


/// The number of buffer bindings with the given role.
pub open spec fn count_buffers(bindings: Seq<ProgramBinding>, role: BufferRole) -> nat
    decreases bindings.len(),
{
    if bindings.len() == 0 {
        0
    } else {
        count_buffers(bindings.drop_last(), role) + match bindings.last() {
            ProgramBinding::Buffer { role: r, .. } => if r == role {
                1nat
            } else {
                0nat
            },
            _ => 0nat,
        }
    }
}

/// The texture unit of a sampler binding.
pub open spec fn texture_unit(b: ProgramBinding) -> Option<u32> {
    match b {
        ProgramBinding::Texture2D { index } => Some(index),
        _ => None,
    }
}

/// What holds of every successful assignment: the counters count the bindings of each
/// kind, stay within the limits, and bound every texture unit, which strictly increase.
proof fn lemma_assign_inv(features: Features, probes: Seq<BindingProbe>)
    ensures
        spec_assign(features, probes) matches Ok((bs, c)) ==> {
            &&& c.texture <= features.max_texture_image_units
            &&& c.uniform <= features.max_uniform_buffer_bindings
            &&& c.storage <= features.max_storage_buffer_bindings
            &&& count_buffers(bs, BufferRole::Uniform) == c.uniform
            &&& count_buffers(bs, BufferRole::Storage) == c.storage
            &&& bs.len() == probes.len()
            &&& forall|j: int| 0 <= j < bs.len() && #[trigger] texture_unit(bs[j]) is Some ==> texture_unit(bs[j])->0 < c.texture
            &&& forall|j: int, k: int|
                0 <= j < k < bs.len() && #[trigger] texture_unit(bs[j]) is Some && #[trigger] texture_unit(bs[k]) is Some
                    ==> texture_unit(bs[j])->0 < texture_unit(bs[k])->0
        },
    decreases probes.len(),
{
    if probes.len() > 0 {
        lemma_assign_inv(features, probes.drop_last());
        if let Ok((bs, c)) = spec_assign(features, probes) {
            let (pbs, pc) = spec_assign(features, probes.drop_last())->Ok_0;
            assert(bs.drop_last() =~= pbs);
            assert forall|j: int| 0 <= j < bs.len() && #[trigger] texture_unit(bs[j]) is Some implies texture_unit(bs[j])->0 < c.texture by {
                if j < pbs.len() {
                    assert(bs[j] == pbs[j]);
                }
            }
            assert forall|j: int, k: int|
                0 <= j < k < bs.len() && #[trigger] texture_unit(bs[j]) is Some && #[trigger] texture_unit(bs[k]) is Some
                    implies texture_unit(bs[j])->0 < texture_unit(bs[k])->0 by {
                assert(bs[j] == pbs[j]);
                if k < pbs.len() {
                    assert(bs[k] == pbs[k]);
                }
            }
        }
    }
}

/// Law: a successful assignment of pipeline bindings gives one binding per name; it
/// binds no more uniform blocks and no more storage blocks than the context allows; every
/// sampler gets a texture unit below the number of units, and the units strictly increase
/// in binding order, so no two samplers share one.
pub proof fn law_bindings_within_limits(features: Features, probes: Seq<BindingProbe>)
    requires
        spec_assign(features, probes) is Ok,
    ensures
        ({
            let bs = (spec_assign(features, probes)->Ok_0).0;
            &&& bs.len() == probes.len()
            &&& count_buffers(bs, BufferRole::Uniform) <= features.max_uniform_buffer_bindings
            &&& count_buffers(bs, BufferRole::Storage) <= features.max_storage_buffer_bindings
            &&& forall|j: int| 0 <= j < bs.len() && #[trigger] texture_unit(bs[j]) is Some
                ==> texture_unit(bs[j])->0 < features.max_texture_image_units
            &&& forall|j: int, k: int|
                0 <= j < k < bs.len() && #[trigger] texture_unit(bs[j]) is Some && #[trigger] texture_unit(bs[k]) is Some
                    ==> texture_unit(bs[j])->0 < texture_unit(bs[k])->0
        }),
{
    lemma_assign_inv(features, probes);
}

/// The name asks for a uniform block on this context: it is one, and the context has
/// uniform buffers.
pub open spec fn asks_uniform(features: Features, probe: BindingProbe) -> bool {
    features.uniform_buffers && probe.uniform_block is Some
}

/// The name asks for a storage block on this context: it is not bound as a uniform block,
/// it is a storage block, and the context has storage buffers.
pub open spec fn asks_storage(features: Features, probe: BindingProbe) -> bool {
    !asks_uniform(features, probe) && features.storage_buffers && probe.storage_block is Some
}

/// The name asks for a texture unit: it is bound as neither kind of block, and it is a
/// `sampler2D` uniform.
pub open spec fn asks_sampler(features: Features, probe: BindingProbe) -> bool {
    !asks_uniform(features, probe) && !asks_storage(features, probe) && probe.sampler_2d
}

/// How many of the names ask for a uniform block.
pub open spec fn uniform_asks(features: Features, probes: Seq<BindingProbe>) -> nat
    decreases probes.len(),
{
    if probes.len() == 0 {
        0
    } else {
        uniform_asks(features, probes.drop_last()) + if asks_uniform(features, probes.last()) {
            1nat
        } else {
            0nat
        }
    }
}

/// How many of the names ask for a storage block.
pub open spec fn storage_asks(features: Features, probes: Seq<BindingProbe>) -> nat
    decreases probes.len(),
{
    if probes.len() == 0 {
        0
    } else {
        storage_asks(features, probes.drop_last()) + if asks_storage(features, probes.last()) {
            1nat
        } else {
            0nat
        }
    }
}

/// How many of the names ask for a texture unit.
pub open spec fn sampler_asks(features: Features, probes: Seq<BindingProbe>) -> nat
    decreases probes.len(),
{
    if probes.len() == 0 {
        0
    } else {
        sampler_asks(features, probes.drop_last()) + if asks_sampler(features, probes.last()) {
            1nat
        } else {
            0nat
        }
    }
}

/// The binding of name `j` is what its report asks for: the reported uniform or storage
/// block, the texture unit numbered by the samplers before it, or nothing.
pub open spec fn binding_follows_probe(
    features: Features,
    probes: Seq<BindingProbe>,
    bindings: Seq<ProgramBinding>,
    j: int,
) -> bool {
    let p = probes[j];
    if asks_uniform(features, p) {
        bindings[j] == ProgramBinding::Buffer {
            index: (p.uniform_block->0).0,
            size: (p.uniform_block->0).1,
            role: BufferRole::Uniform,
        }
    } else if asks_storage(features, p) {
        bindings[j] == ProgramBinding::Buffer {
            index: (p.storage_block->0).0,
            size: (p.storage_block->0).1,
            role: BufferRole::Storage,
        }
    } else if asks_sampler(features, p) {
        bindings[j] == ProgramBinding::Texture2D { index: sampler_asks(features, probes.take(j)) as u32 }
    } else {
        bindings[j] == ProgramBinding::Unbound
    }
}

/// An assignment that succeeds counts, in its counters, the names that ask for each kind,
/// and binds each name as its report asks; one whose names ask for no more of each kind
/// than the context allows succeeds.
proof fn lemma_assign_follows_probes(features: Features, probes: Seq<BindingProbe>)
    ensures
        spec_assign(features, probes) matches Ok((bs, c)) ==> {
            &&& c.uniform == uniform_asks(features, probes)
            &&& c.storage == storage_asks(features, probes)
            &&& c.texture == sampler_asks(features, probes)
            &&& bs.len() == probes.len()
            &&& forall|j: int| 0 <= j < probes.len() ==> #[trigger] binding_follows_probe(features, probes, bs, j)
        },
        uniform_asks(features, probes) <= features.max_uniform_buffer_bindings && storage_asks(features, probes)
            <= features.max_storage_buffer_bindings && sampler_asks(features, probes)
            <= features.max_texture_image_units ==> spec_assign(features, probes) is Ok,
    decreases probes.len(),
{
    if probes.len() > 0 {
        let prev = probes.drop_last();
        lemma_assign_follows_probes(features, prev);
        if let Ok((bs, c)) = spec_assign(features, probes) {
            let (pbs, pc) = spec_assign(features, prev)->Ok_0;
            assert(bs.drop_last() =~= pbs);
            assert forall|j: int| 0 <= j < probes.len() implies #[trigger] binding_follows_probe(
                features,
                probes,
                bs,
                j,
            ) by {
                if j < prev.len() {
                    assert(binding_follows_probe(features, prev, pbs, j));
                    assert(probes.take(j) =~= prev.take(j));
                    assert(bs[j] == pbs[j]);
                    assert(probes[j] == prev[j]);
                } else {
                    assert(probes.take(j) =~= prev);
                }
            }
        }
    }
}

/// Law: each binding name of a program is bound as its report asks on the context — as
/// the reported uniform block when the context has uniform buffers, else as the reported
/// storage block when it has storage buffers, else, for a `sampler2D`, to the next texture
/// unit in name order — or left unbound; and the assignment succeeds whenever the names
/// ask for no more uniform blocks, storage blocks and texture units than the context
/// allows.
pub proof fn law_bindings_follow_probes(features: Features, probes: Seq<BindingProbe>)
    ensures
        spec_assign(features, probes) matches Ok((bs, _)) ==> bs.len() == probes.len() && forall|j: int|
            0 <= j < probes.len() ==> #[trigger] binding_follows_probe(features, probes, bs, j),
        uniform_asks(features, probes) <= features.max_uniform_buffer_bindings && storage_asks(features, probes)
            <= features.max_storage_buffer_bindings && sampler_asks(features, probes)
            <= features.max_texture_image_units ==> spec_assign(features, probes) is Ok,
{
    lemma_assign_follows_probes(features, probes);
}


/// A resource provided for a pipeline binding in a draw call.
#[derive(Debug, Clone)]
pub enum BindingDesc {
    /// A texture, by its name, with the context that made it.
    Texture { texture: u32, owner: u64 },
    /// An attachment of a framebuffer.
    Framebuffer { framebuffer: FramebufferDesc, attachment: FramebufferAttachment },
    /// A region of a buffer.
    Buffer { buffer: BufferDesc, offset: u64, size: u64 },
}

/// The context that made the resource provided for a binding.
pub open spec fn spec_binding_owner(binding: BindingDesc) -> u64 {
    match binding {
        BindingDesc::Texture { owner, .. } => owner,
        BindingDesc::Framebuffer { framebuffer, .. } => framebuffer.owner,
        BindingDesc::Buffer { buffer, .. } => buffer.owner,
    }
}

/// Every resource provided for the bindings of a draw call was made by the context
/// `context`.
pub open spec fn spec_bindings_owned(context: u64, provided: Seq<BindingDesc>) -> bool {
    forall|i: int| 0 <= i < provided.len() ==> #[trigger] spec_binding_owner(provided[i]) == context
}

/// Whether every resource provided for the bindings of a draw call was made by the context
/// `context`.
pub fn bindings_owned(context: u64, provided: &Vec<BindingDesc>) -> (r: bool)
    ensures
        r == spec_bindings_owned(context, provided@),
{
    let mut k: usize = 0;
    while k < provided.len()
        invariant
            k <= provided@.len(),
            forall|i: int| 0 <= i < k ==> #[trigger] spec_binding_owner(provided@[i]) == context,
        decreases provided@.len() - k,
    {
        let owner = match &provided[k] {
            BindingDesc::Texture { owner, .. } => *owner,
            BindingDesc::Framebuffer { framebuffer, .. } => framebuffer.owner,
            BindingDesc::Buffer { buffer, .. } => buffer.owner,
        };
        if owner != context {
            assert(spec_binding_owner(provided@[k as int]) != context);
            return false;
        }
        k = k + 1;
    }
    true
}

/// What to bind for one pipeline binding.
#[derive(Debug, Clone, Copy, PartialEq, Eq, Structural)]
pub enum BindAction {
    /// Nothing.
    Skip,
    /// The region of `buffer` at `offset` of `size` bytes, to block binding `index` of the
    /// given role.
    Buffer { role: BufferRole, index: u32, buffer: u32, offset: u64, size: u64 },
    /// The texture to the texture unit.
    Texture { unit: u32, texture: u32 },
}

/// The texture that stores an attachment of a framebuffer, if it can be sampled.
pub open spec fn spec_attachment_texture(fb: FramebufferDesc, attachment: FramebufferAttachment) -> Option<u32> {
    match attachment {
        FramebufferAttachment::Stencil => None,
        FramebufferAttachment::Depth => match fb.depth {
            Some(d) => d.texture,
            None => None,
        },
        FramebufferAttachment::Color(index) => if (index as int) < fb.color@.len() {
            fb.color@[index as int].texture
        } else {
            None
        },
    }
}

/// Finds the texture that stores an attachment of a framebuffer, if it can be sampled.
pub fn attachment_texture(fb: &FramebufferDesc, attachment: FramebufferAttachment) -> (r: Option<u32>)
    ensures
        r == spec_attachment_texture(*fb, attachment),
{
    match attachment {
        FramebufferAttachment::Stencil => None,
        FramebufferAttachment::Depth => match &fb.depth {
            Some(d) => d.texture,
            None => None,
        },
        FramebufferAttachment::Color(index) => if (index as usize) < fb.color.len() {
            fb.color[index as usize].texture
        } else {
            None
        },
    }
}

/// The outcome of binding `provided` to pipeline binding `i` while drawing into the
/// framebuffer `target`. A buffer binding needs a buffer of the same role, with at least
/// the block's size, whose region fits the buffer and whose offset
/// is aligned; a sampler needs a texture, or a sampleable attachment of a framebuffer
/// other than the target. Each mismatch is a `BindingMismatch(i, ..)` that names it, and
/// sampling the target is `FramebufferInUse`.
pub open spec fn spec_resolve_binding(
    features: Features,
    i: usize,
    program: ProgramBinding,
    provided: Option<BindingDesc>,
    target: Option<u32>,
) -> Result<BindAction, Error> {
    match program {
        ProgramBinding::Unbound => Ok(BindAction::Skip),
        ProgramBinding::Buffer { index, size, role } => match provided {
            Some(BindingDesc::Buffer { buffer, offset, size: data_size }) => if buffer.role != role {
                Err(Error::BindingMismatch(i, "invalid role"))
            } else if data_size < size {
                Err(Error::BindingMismatch(i, "invalid size"))
            } else if offset + data_size > buffer.capacity {
                Err(Error::BindingMismatch(i, "invalid offset"))
            } else if !multiple_of(offset as int, features.spec_buffer_alignment(buffer.role) as int) {
                Err(Error::BindingMismatch(i, "invalid alignment"))
            } else {
                Ok(BindAction::Buffer { role, index, buffer: buffer.id, offset, size: data_size })
            },
            _ => Err(Error::BindingMismatch(i, "not a buffer")),
        },
        ProgramBinding::Texture2D { index } => match provided {
            Some(BindingDesc::Texture { texture, .. }) => Ok(BindAction::Texture { unit: index, texture }),
            Some(BindingDesc::Framebuffer { framebuffer, attachment }) => if target == framebuffer.id {
                Err(Error::FramebufferInUse)
            } else {
                match spec_attachment_texture(framebuffer, attachment) {
                    Some(texture) => Ok(BindAction::Texture { unit: index, texture }),
                    None => Err(Error::BindingMismatch(i, "invalid attachment")),
                }
            },
            _ => Err(Error::BindingMismatch(i, "not a texture")),
        },
    }
}

/// Checks the resource provided for pipeline binding `i` of a draw call into `target`,
/// and decides what to bind.
pub fn resolve_binding(
    features: &Features,
    i: usize,
    program: ProgramBinding,
    provided: Option<&BindingDesc>,
    target: Option<u32>,
) -> (r: Result<BindAction, Error>)
    ensures
        r == spec_resolve_binding(
            *features,
            i,
            program,
            match provided {
                Some(p) => Some(*p),
                None => None,
            },
            target,
        ),
{
    match program {
        ProgramBinding::Unbound => Ok(BindAction::Skip),
        ProgramBinding::Buffer { index, size, role } => match provided {
            Some(BindingDesc::Buffer { buffer, offset, size: data_size }) => {
                if buffer.role != role {
                    return Err(Error::BindingMismatch(i, "invalid role"));
                }
                if *data_size < size as u64 {
                    return Err(Error::BindingMismatch(i, "invalid size"));
                }
                if *offset as u128 + *data_size as u128 > buffer.capacity as u128 {
                    return Err(Error::BindingMismatch(i, "invalid offset"));
                }
                if !is_multiple_of_u64(*offset, features.buffer_alignment(buffer.role) as u64) {
                    return Err(Error::BindingMismatch(i, "invalid alignment"));
                }
                Ok(BindAction::Buffer { role, index, buffer: buffer.id, offset: *offset, size: *data_size })
            },
            _ => Err(Error::BindingMismatch(i, "not a buffer")),
        },
        ProgramBinding::Texture2D { index } => match provided {
            Some(BindingDesc::Texture { texture, .. }) => Ok(BindAction::Texture { unit: index, texture: *texture }),
            Some(BindingDesc::Framebuffer { framebuffer, attachment }) => {
                if target == framebuffer.id {
                    return Err(Error::FramebufferInUse);
                }
                match attachment_texture(framebuffer, *attachment) {
                    Some(texture) => Ok(BindAction::Texture { unit: index, texture }),
                    None => Err(Error::BindingMismatch(i, "invalid attachment")),
                }
            },
            _ => Err(Error::BindingMismatch(i, "not a texture")),
        },
    }
}


/// Law: a buffer bound for a draw call has the role of the block, holds at least the
/// block's size, lies within the buffer, and starts at an aligned offset; a framebuffer
/// is never sampled while it is the draw target.
pub proof fn law_resolved_buffer_binding_fits(
    features: Features,
    i: usize,
    program: ProgramBinding,
    provided: Option<BindingDesc>,
    target: Option<u32>,
)
    ensures
        ({
            let r = spec_resolve_binding(features, i, program, provided, target);
            &&& program matches ProgramBinding::Buffer { index, size, role } ==> r is Ok ==> (provided matches Some(
                BindingDesc::Buffer { buffer, offset, size: data_size },
            ) && buffer.role == role && data_size >= size && offset + data_size <= buffer.capacity
                && multiple_of(offset as int, features.spec_buffer_alignment(role) as int))
            &&& (provided matches Some(BindingDesc::Framebuffer { framebuffer, .. }) && framebuffer.id == target
                && program is Texture2D) ==> r == Err::<BindAction, Error>(Error::FramebufferInUse)
        }),
{
}


/// The outcome of resolving the first `n` bindings of a draw call in order: the first
/// binding that fails decides the error.
pub open spec fn spec_plan_prefix(
    features: Features,
    program: Seq<ProgramBinding>,
    provided: Seq<BindingDesc>,
    target: Option<u32>,
    n: int,
) -> Result<Seq<BindAction>, Error>
    decreases n,
{
    if n <= 0 {
        Ok(Seq::empty())
    } else {
        match spec_plan_prefix(features, program, provided, target, n - 1) {
            Err(e) => Err(e),
            Ok(actions) => match spec_resolve_binding(
                features,
                (n - 1) as usize,
                program[n - 1],
                if n - 1 < provided.len() {
                    Some(provided[n - 1])
                } else {
                    None
                },
                target,
            ) {
                Err(e) => Err(e),
                Ok(action) => Ok(actions.push(action)),
            },
        }
    }
}

/// The outcome of binding `provided` to the bindings of a pipeline in a draw call into
/// `target`: each binding is resolved in order against the resource at its position (a
/// binding without one is resolved against nothing) and the first failing one decides the
/// error; when all pass but the numbers of resources and bindings differ, the draw is a
/// `BindingMismatch` at the first binding or resource that has no counterpart.
pub open spec fn spec_plan_draw_bindings(
    features: Features,
    program: Seq<ProgramBinding>,
    provided: Seq<BindingDesc>,
    target: Option<u32>,
) -> Result<Seq<BindAction>, Error> {
    match spec_plan_prefix(features, program, provided, target, program.len() as int) {
        Err(e) => Err(e),
        Ok(actions) => if program.len() != provided.len() {
            Err(
                Error::BindingMismatch(
                    (if program.len() <= provided.len() { program.len() } else { provided.len() }) as usize,
                    "invalid binding count",
                ),
            )
        } else {
            Ok(actions)
        },
    }
}

/// Once resolving a prefix of the bindings fails, resolving any longer prefix fails with
/// the same error.
proof fn lemma_plan_error_persists(
    features: Features,
    program: Seq<ProgramBinding>,
    provided: Seq<BindingDesc>,
    target: Option<u32>,
    k: int,
    n: int,
)
    requires
        0 <= k <= n,
        spec_plan_prefix(features, program, provided, target, k) is Err,
    ensures
        spec_plan_prefix(features, program, provided, target, n) == spec_plan_prefix(
            features,
            program,
            provided,
            target,
            k,
        ),
    decreases n - k,
{
    if k < n {
        lemma_plan_error_persists(features, program, provided, target, k, n - 1);
    }
}

/// Checks the resources of a draw call against the bindings of its pipeline and decides
/// what to bind for each binding, in binding order.
pub fn plan_draw_bindings(
    features: &Features,
    program: &Vec<ProgramBinding>,
    provided: &Vec<BindingDesc>,
    target: Option<u32>,
) -> (r: Result<Vec<BindAction>, Error>)
    ensures
        match spec_plan_draw_bindings(*features, program@, provided@, target) {
            Ok(actions) => r matches Ok(v) && v@ == actions,
            Err(e) => r matches Err(f) && f == e,
        },
{
    let mut out: Vec<BindAction> = Vec::new();
    let mut k: usize = 0;
    while k < program.len()
        invariant
            k <= program@.len(),
            spec_plan_prefix(*features, program@, provided@, target, k as int) == Ok::<Seq<BindAction>, Error>(
                out@,
            ),
        decreases program@.len() - k,
    {
        let resource = if k < provided.len() {
            Some(&provided[k])
        } else {
            None
        };
        let action = resolve_binding(features, k, program[k], resource, target);
        match action {
            Ok(a) => {
                out.push(a);
            },
            Err(e) => {
                proof {
                    lemma_plan_error_persists(
                        *features,
                        program@,
                        provided@,
                        target,
                        k + 1,
                        program@.len() as int,
                    );
                }
                return Err(e);
            },
        }
        k = k + 1;
    }
    if program.len() != provided.len() {
        let first = if program.len() <= provided.len() {
            program.len()
        } else {
            provided.len()
        };
        return Err(Error::BindingMismatch(first, "invalid binding count"));
    }
    Ok(out)
}


/// Law: a draw call whose resources are not one for each binding of the pipeline is
/// refused; when every binding passes its own check, it is refused with a
/// `BindingMismatch` for the count.
pub proof fn law_binding_count_must_match(
    features: Features,
    program: Seq<ProgramBinding>,
    provided: Seq<BindingDesc>,
    target: Option<u32>,
)
    requires
        program.len() != provided.len(),
    ensures
        spec_plan_draw_bindings(features, program, provided, target) is Err,
        spec_plan_prefix(features, program, provided, target, program.len() as int) is Ok
            ==> spec_plan_draw_bindings(features, program, provided, target) == Err::<Seq<BindAction>, Error>(
            Error::BindingMismatch(
                (if program.len() <= provided.len() { program.len() } else { provided.len() }) as usize,
                "invalid binding count",
            ),
        ),
{
}


/// A successful resolution of the first `n` bindings gives one action for each.
proof fn lemma_plan_prefix_len(
    features: Features,
    program: Seq<ProgramBinding>,
    provided: Seq<BindingDesc>,
    target: Option<u32>,
    n: int,
)
    requires
        0 <= n,
    ensures
        spec_plan_prefix(features, program, provided, target, n) matches Ok(actions) ==> actions.len() == n,
    decreases n,
{
    if n > 0 {
        lemma_plan_prefix_len(features, program, provided, target, n - 1);
    }
}

/// Law: a draw call whose resources are accepted binds exactly one action per binding of
/// the pipeline, and there is exactly one resource per binding.
pub proof fn law_accepted_draw_binds_each_binding_once(
    features: Features,
    program: Seq<ProgramBinding>,
    provided: Seq<BindingDesc>,
    target: Option<u32>,
)
    requires
        spec_plan_draw_bindings(features, program, provided, target) is Ok,
    ensures
        provided.len() == program.len(),
        (spec_plan_draw_bindings(features, program, provided, target)->Ok_0).len() == program.len(),
{
    lemma_plan_prefix_len(features, program, provided, target, program.len() as int);
}

/// Law: a sampler binding takes a texture as it is, and an attachment of a framebuffer
/// other than the draw target from the texture that stores it (color or depth); an
/// attachment without such a texture, and the stencil attachment, are an invalid
/// attachment; sampling the target is `FramebufferInUse`; anything else is not a texture.
pub proof fn law_sampler_binding_resolution(
    features: Features,
    i: usize,
    index: u32,
    provided: Option<BindingDesc>,
    target: Option<u32>,
)
    ensures
        ({
            let r = spec_resolve_binding(features, i, ProgramBinding::Texture2D { index }, provided, target);
            let invalid = Err::<BindAction, Error>(Error::BindingMismatch(i, "invalid attachment"));
            match provided {
                Some(BindingDesc::Texture { texture, .. }) => r == Ok::<BindAction, Error>(
                    BindAction::Texture { unit: index, texture },
                ),
                Some(BindingDesc::Framebuffer { framebuffer, attachment }) => if framebuffer.id == target {
                    r == Err::<BindAction, Error>(Error::FramebufferInUse)
                } else {
                    match attachment {
                        FramebufferAttachment::Depth => match framebuffer.depth {
                            Some(d) => match d.texture {
                                Some(t) => r == Ok::<BindAction, Error>(
                                    BindAction::Texture { unit: index, texture: t },
                                ),
                                None => r == invalid,
                            },
                            None => r == invalid,
                        },
                        FramebufferAttachment::Color(c) => if (c as int) < framebuffer.color@.len() {
                            match framebuffer.color@[c as int].texture {
                                Some(t) => r == Ok::<BindAction, Error>(
                                    BindAction::Texture { unit: index, texture: t },
                                ),
                                None => r == invalid,
                            }
                        } else {
                            r == invalid
                        },
                        FramebufferAttachment::Stencil => r == invalid,
                    }
                },
                _ => r == Err::<BindAction, Error>(Error::BindingMismatch(i, "not a texture")),
            }
        }),
{
}

/// Law: a buffer binding takes a region of a buffer of its role that holds at least the
/// block's size, lies within the buffer and starts at an offset that the role aligns, and
/// binds exactly that region; otherwise the first of these that fails names the mismatch.
/// An unbound binding binds nothing; anything other than a buffer is not a buffer.
pub proof fn law_buffer_binding_resolution(
    features: Features,
    i: usize,
    index: u32,
    size: u32,
    role: BufferRole,
    provided: Option<BindingDesc>,
    target: Option<u32>,
)
    ensures
        spec_resolve_binding(features, i, ProgramBinding::Unbound, provided, target) == Ok::<BindAction, Error>(
            BindAction::Skip,
        ),
        ({
            let r = spec_resolve_binding(features, i, ProgramBinding::Buffer { index, size, role }, provided, target);
            match provided {
                Some(BindingDesc::Buffer { buffer, offset, size: data_size }) => if buffer.role != role {
                    r == Err::<BindAction, Error>(Error::BindingMismatch(i, "invalid role"))
                } else if data_size < size {
                    r == Err::<BindAction, Error>(Error::BindingMismatch(i, "invalid size"))
                } else if offset + data_size > buffer.capacity {
                    r == Err::<BindAction, Error>(Error::BindingMismatch(i, "invalid offset"))
                } else if !aligned(offset as int, role_alignment(features, role)) {
                    r == Err::<BindAction, Error>(Error::BindingMismatch(i, "invalid alignment"))
                } else {
                    r == Ok::<BindAction, Error>(
                        BindAction::Buffer { role, index, buffer: buffer.id, offset, size: data_size },
                    )
                },
                _ => r == Err::<BindAction, Error>(Error::BindingMismatch(i, "not a buffer")),
            }
        }),
{
}

} // verus!
