//! Hot reload of shaders and of the pipelines built from them.
//!
//! Each tracked shader identity owns one pipeline. When its source changes,
//! the old shader and pipeline are destroyed, the shader is recreated from
//! the new source and the pipeline rebuilt against the same layout. If the new
//! source does not compile, the identity is left with no shader and no
//! pipeline until a later reload succeeds. No other resource is touched.
use vstd::prelude::*;

use crate::arena::{has_room, LAST_GENERATION};
use crate::context::{
    is_pipeline_of, is_shader_of, PipelineDesc, RendererContext, RendererContextError,
};
use crate::handle::{key_generation, ComputePipelineHandle, RenderPipelineHandle, ShaderHandle};
use crate::resource::{copy_layout, BindGroupLayoutEntry, Resource, ResourceKind};

verus! {

/// What happened to a watched file.
#[derive(Clone, Copy, PartialEq, Eq, Structural, Debug)]
pub enum ChangeKind {
    Modified,
    Created,
    Removed,
}

/// Which kind of pipeline a shader feeds.
#[derive(Clone, Copy, PartialEq, Eq, Structural, Debug)]
pub enum PipelineKind {
    Render,
    Compute,
}

/// A pipeline of either kind.
#[derive(Clone, Copy, PartialEq, Eq, Structural, Debug)]
pub enum PipelineHandle {
    Render(RenderPipelineHandle),
    Compute(ComputePipelineHandle),
}

/// The arena that pipelines of `kind` live in.
pub open spec fn arena_kind(kind: PipelineKind) -> ResourceKind {
    match kind {
        PipelineKind::Render => ResourceKind::RenderPipeline,
        PipelineKind::Compute => ResourceKind::ComputePipeline,
    }
}

/// The arena key of a pipeline handle.
pub open spec fn pipeline_key(p: PipelineHandle) -> u64 {
    match p {
        PipelineHandle::Render(h) => h.key(),
        PipelineHandle::Compute(h) => h.key(),
    }
}

/// Whether a pipeline handle is of `kind`.
pub open spec fn pipeline_is(p: PipelineHandle, kind: PipelineKind) -> bool {
    match kind {
        PipelineKind::Render => p is Render,
        PipelineKind::Compute => p is Compute,
    }
}

/// `m` without `key`, if there is one.
pub open spec fn without(m: Map<u64, Resource>, key: Option<u64>) -> Map<u64, Resource> {
    match key {
        Some(k) => m.remove(k),
        None => m,
    }
}

/// Whether a change event concerns the shader `identity`: only a
/// modification of a file whose stem is the identity does.
pub open spec fn concerns(kind: ChangeKind, stem: Seq<char>, identity: Seq<char>) -> bool {
    kind == ChangeKind::Modified && stem == identity
}

/// A shader identity tracked for hot reload and the pipeline built from it.
pub struct ReloadTarget {
    identity: String,
    kind: PipelineKind,
    layout: Vec<BindGroupLayoutEntry>,
    shader: Option<ShaderHandle>,
    pipeline: Option<PipelineHandle>,
}

impl ReloadTarget {
    #[verifier::type_invariant]
    spec fn pipeline_of_kind(self) -> bool {
        self.pipeline matches Some(p) ==> pipeline_is(p, self.kind)
    }

    /// The identity (file stem) of the shader.
    pub closed spec fn spec_identity(&self) -> Seq<char> {
        self.identity@
    }

    /// The kind of pipeline the shader feeds.
    pub closed spec fn spec_kind(&self) -> PipelineKind {
        self.kind
    }

    /// The bind group layout the pipeline is built with.
    pub closed spec fn spec_layout(&self) -> Seq<BindGroupLayoutEntry> {
        self.layout@
    }

    /// The current shader, if the last load compiled.
    pub closed spec fn spec_shader(&self) -> Option<ShaderHandle> {
        self.shader
    }

    /// The current pipeline, if the last load compiled.
    pub closed spec fn spec_pipeline(&self) -> Option<PipelineHandle> {
        self.pipeline
    }

    /// The arena key of the current shader, if any.
    pub open spec fn shader_key(&self) -> Option<u64> {
        match self.spec_shader() {
            Some(s) => Some(s.key()),
            None => None,
        }
    }

    /// The arena key of the current pipeline, if any.
    pub open spec fn pipeline_key(&self) -> Option<u64> {
        match self.spec_pipeline() {
            Some(p) => Some(pipeline_key(p)),
            None => None,
        }
    }

    /// A target with no shader and no pipeline yet.
    pub fn new(identity: String, kind: PipelineKind, layout: Vec<BindGroupLayoutEntry>) -> (r: Self)
        ensures
            r.spec_identity() == identity@,
            r.spec_kind() == kind,
            r.spec_layout() == layout@,
            r.spec_shader() is None,
            r.spec_pipeline() is None,
    {
        ReloadTarget { identity, kind, layout, shader: None, pipeline: None }
    }

    /// The identity (file stem) of the shader.
    pub fn identity(&self) -> (r: &String)
        ensures
            r@ == self.spec_identity(),
    {
        &self.identity
    }

    /// The kind of pipeline the shader feeds.
    pub fn kind(&self) -> (r: PipelineKind)
        ensures
            r == self.spec_kind(),
    {
        self.kind
    }

    /// The bind group layout the pipeline is built with.
    pub fn layout(&self) -> (r: &[BindGroupLayoutEntry])
        ensures
            r@ == self.spec_layout(),
    {
        self.layout.as_slice()
    }

    /// The current shader, if the last load compiled.
    pub fn shader(&self) -> (r: Option<ShaderHandle>)
        ensures
            r == self.spec_shader(),
    {
        self.shader
    }

    /// The current pipeline, if the last load compiled.
    pub fn pipeline(&self) -> (r: Option<PipelineHandle>)
        ensures
            r == self.spec_pipeline(),
            r matches Some(p) ==> pipeline_is(p, self.spec_kind()),
    {
        proof {
            use_type_invariant(self);
        }
        self.pipeline
    }

    /// The current render pipeline, if this target feeds one and the last
    /// load compiled.
    pub fn render_pipeline(&self) -> (r: Option<RenderPipelineHandle>)
        ensures
            r == (match self.spec_pipeline() {
                Some(PipelineHandle::Render(h)) => Some(h),
                _ => None::<RenderPipelineHandle>,
            }),
    {
        match self.pipeline {
            Some(PipelineHandle::Render(h)) => Some(h),
            _ => None,
        }
    }

    /// The current compute pipeline, if this target feeds one and the last
    /// load compiled.
    pub fn compute_pipeline(&self) -> (r: Option<ComputePipelineHandle>)
        ensures
            r == (match self.spec_pipeline() {
                Some(PipelineHandle::Compute(h)) => Some(h),
                _ => None::<ComputePipelineHandle>,
            }),
    {
        match self.pipeline {
            Some(PipelineHandle::Compute(h)) => Some(h),
            _ => None,
        }
    }
}

/// Whether a change event concerns the shader `identity`.
pub fn reacts_to(kind: ChangeKind, stem: &String, identity: &String) -> (r: bool)
    ensures
        r == concerns(kind, stem@, identity@),
{
    kind == ChangeKind::Modified && *stem == *identity
}

/// The first target that a change event concerns.
pub fn find_target(targets: &[ReloadTarget], kind: ChangeKind, stem: &String) -> (r: Option<usize>)
    ensures
        r matches Some(i) ==> i < targets@.len() && concerns(kind, stem@, targets@[i as int].spec_identity()),
        r matches Some(i) ==> forall|j: int| 0 <= j < i ==> !concerns(kind, stem@, #[trigger] targets@[j].spec_identity()),
        r is None ==> forall|j: int| 0 <= j < targets@.len() ==> !concerns(kind, stem@, #[trigger] targets@[j].spec_identity()),
{
    let mut i: usize = 0;
    while i < targets.len()
        invariant
            i <= targets@.len(),
            forall|j: int| 0 <= j < i ==> !concerns(kind, stem@, #[trigger] targets@[j].spec_identity()),
        decreases targets@.len() - i,
    {
        if reacts_to(kind, stem, targets[i].identity()) {
            return Some(i);
        }
        i = i + 1;
    }
    None
}

/// Reloads the shader of `target` from `source`, and rebuilds its pipeline.
/// `diagnostic` is what the device reported if `source` failed to compile.
///
/// The old shader and pipeline are destroyed first. On success the target
/// holds the new shader and a new pipeline with its unchanged layout; on a
/// compile failure it holds neither and the diagnostic is returned. Buffers,
/// textures, bind groups and every other pipeline keep their handles and
/// records.
pub fn reload(
    ctx: &mut RendererContext,
    target: &mut ReloadTarget,
    source: &str,
    diagnostic: Option<String>,
) -> (r: Result<(), RendererContextError>)
    requires
        old(ctx).wf(),
        has_room(old(ctx).arena(ResourceKind::Shader)@),
        has_room(old(ctx).arena(arena_kind(old(target).spec_kind()))@),
    ensures
        final(ctx).wf(),
        final(ctx).configured() == old(ctx).configured(),
        forall|k: ResourceKind|
            k != ResourceKind::Shader && k != arena_kind(old(target).spec_kind())
                ==> #[trigger] final(ctx).arena(k) == old(ctx).arena(k),
        // every other pipeline of the same kind keeps its handle and record
        forall|k: u64|
            old(ctx).arena(arena_kind(old(target).spec_kind()))@.contains_key(k) && old(
                target,
            ).pipeline_key() != Some(k) ==> final(ctx).arena(
                arena_kind(old(target).spec_kind()),
            )@.contains_key(k) && #[trigger] final(ctx).arena(
                arena_kind(old(target).spec_kind()),
            )@[k] == old(ctx).arena(arena_kind(old(target).spec_kind()))@[k],
        final(target).spec_identity() == old(target).spec_identity(),
        final(target).spec_kind() == old(target).spec_kind(),
        final(target).spec_layout() == old(target).spec_layout(),
        // a compile failure leaves the identity with nothing
        diagnostic is Some ==> r == Err::<(), RendererContextError>(
            RendererContextError::CreateShaderModule(diagnostic->Some_0),
        ),
        diagnostic is Some ==> final(target).spec_shader() is None && final(target).spec_pipeline() is None,
        diagnostic is Some ==> final(ctx).arena(ResourceKind::Shader)@ == without(
            old(ctx).arena(ResourceKind::Shader)@,
            old(target).shader_key(),
        ),
        diagnostic is Some ==> final(ctx).arena(arena_kind(old(target).spec_kind()))@ == without(
            old(ctx).arena(arena_kind(old(target).spec_kind()))@,
            old(target).pipeline_key(),
        ),
        // success: a fresh shader and a fresh pipeline replace the old ones
        diagnostic is None ==> r is Ok,
        diagnostic is None ==> final(target).spec_shader() is Some && final(target).spec_pipeline() is Some,
        diagnostic is None ==> {
            let old_shaders = without(old(ctx).arena(ResourceKind::Shader)@, old(target).shader_key());
            let s = final(target).shader_key()->Some_0;
            let old_key = old(target).shader_key();
            &&& !old_shaders.contains_key(s)
            &&& final(ctx).arena(ResourceKind::Shader)@ == old_shaders.insert(
                s,
                final(ctx).arena(ResourceKind::Shader)@[s],
            )
            &&& is_shader_of(final(ctx).arena(ResourceKind::Shader)@[s], source@)
            &&& old_key is Some && old(ctx).arena(ResourceKind::Shader)@.contains_key(
                old_key->Some_0,
            ) && key_generation(old_key->Some_0) < LAST_GENERATION ==> s != old_key->Some_0
        },
        diagnostic is None ==> {
            let pk = arena_kind(old(target).spec_kind());
            let old_pipelines = without(old(ctx).arena(pk)@, old(target).pipeline_key());
            let p = final(target).pipeline_key()->Some_0;
            let old_key = old(target).pipeline_key();
            &&& !old_pipelines.contains_key(p)
            &&& old_key is Some && old(ctx).arena(pk)@.contains_key(old_key->Some_0)
                && key_generation(old_key->Some_0) < LAST_GENERATION ==> p != old_key->Some_0
            &&& final(ctx).arena(pk)@ == old_pipelines.insert(p, final(ctx).arena(pk)@[p])
            &&& is_pipeline_of(
                pk,
                final(ctx).arena(pk)@[p],
                final(target).spec_shader()->Some_0,
                old(target).spec_layout(),
            )
        },
{
    proof {
        use_type_invariant(&*target);
    }
    let ghost ctx0 = *ctx;
    match target.shader {
        Some(s) => ctx.destroy_shader(s),
        None => {},
    }
    match target.pipeline {
        Some(PipelineHandle::Render(p)) => ctx.destroy_render_pipeline(p),
        Some(PipelineHandle::Compute(p)) => ctx.destroy_compute_pipeline(p),
        None => {},
    }
    let ghost ctx2 = *ctx;
    target.pipeline = None;
    target.shader = None;
    proof {
        let pk = arena_kind(target.kind);
        assert(ctx0.arena(ResourceKind::Shader).wf());
        assert(ctx0.arena(pk).wf());
        vstd::set_lib::lemma_len_subset(
            ctx2.arena(ResourceKind::Shader)@.dom(),
            ctx0.arena(ResourceKind::Shader)@.dom(),
        );
        vstd::set_lib::lemma_len_subset(ctx2.arena(pk)@.dom(), ctx0.arena(pk)@.dom());
    }
    let shader = match ctx.new_shader(source, diagnostic) {
        Ok(s) => s,
        Err(e) => {
            return Err(e);
        },
    };
    target.shader = Some(shader);
    let desc = PipelineDesc { shader, bindings_layout: copy_layout(target.layout.as_slice()) };
    match target.kind {
        PipelineKind::Render => {
            let p = ctx.new_render_pipeline(&desc);
            target.pipeline = Some(PipelineHandle::Render(p));
        },
        PipelineKind::Compute => {
            let p = ctx.new_compute_pipeline(&desc);
            target.pipeline = Some(PipelineHandle::Compute(p));
        },
    }
    Ok(())
}

} // verus!
