//! The device context: owner of every resource arena and of the surface
//! configuration.
//!
//! Creating a resource stores its record in the arena of its kind and hands
//! out a typed handle; destroying one removes the record. The GPU objects
//! themselves are made by whoever drives the device, from these records and
//! keyed by the same handles.
use vstd::prelude::*;

use crate::arena::{arena_inserted, arena_removed, has_room, lookup, HandleArena};
use crate::handle::{
    BindGroupHandle, BufferHandle, ComputePipelineHandle, RenderPipelineHandle, ShaderHandle,
    TextureHandle,
};
use crate::binding::{bindings_fill_layout, fills_layout};
use crate::resource::{
    copy_bytes, copy_layout, is_kind, overwrite, same_layout, layout_of, BindGroupLayoutEntry, Binding, BufferInitDescriptor,
    BindGroupRecord, BufferRecord, BufferUsages, Extent3d, ImageDataLayout, PipelineRecord, Resolution, Resource, ResourceKind,
    ShaderRecord, TextureDescriptor,
};

verus! {

/// Why the swapchain image could not be acquired.
#[derive(Clone, Copy, PartialEq, Eq, Structural, Debug)]
pub enum SurfaceError {
    Timeout,
    Outdated,
    Lost,
    OutOfMemory,
}

/// Failures that the context reports to its caller.
#[derive(Debug)]
pub enum RendererContextError {
    /// The swapchain image could not be acquired.
    SurfaceError(SurfaceError),
    /// The shader source did not compile; the diagnostic is attached.
    CreateShaderModule(String),
    /// A handle names a resource that was destroyed.
    StaleHandle,
    /// Bindings do not fill the pipeline's layout, or a bind group is used
    /// with a pipeline of another layout.
    LayoutMismatch,
}

/// A pipeline to build: its shader and its bind group layout.
pub struct PipelineDesc {
    pub shader: ShaderHandle,
    pub bindings_layout: Vec<BindGroupLayoutEntry>,
}

/// Owner of all resource arenas and of the surface configuration.
pub struct RendererContext {
    resolution: Resolution,
    textures: HandleArena,
    buffers: HandleArena,
    shaders: HandleArena,
    render_pipelines: HandleArena,
    compute_pipelines: HandleArena,
    bind_groups: HandleArena,
}

/// `r` is a shader record compiled from `source`.
pub open spec fn is_shader_of(r: Resource, source: Seq<char>) -> bool {
    r matches Resource::Shader(s) && s.source@ == source
}

/// `r` is a pipeline record of the given kind, built from `shader` with
/// `layout`.
pub open spec fn is_pipeline_of(
    kind: ResourceKind,
    r: Resource,
    shader: ShaderHandle,
    layout: Seq<BindGroupLayoutEntry>,
) -> bool {
    &&& kind == ResourceKind::RenderPipeline || kind == ResourceKind::ComputePipeline
    &&& is_kind(kind, r)
    &&& r matches Resource::RenderPipeline(p) ==> p.shader == shader && p.layout@ == layout
    &&& r matches Resource::ComputePipeline(p) ==> p.shader == shader && p.layout@ == layout
}

/// `r` is a bind group record for `layout` holding exactly `entries`.
pub open spec fn is_bind_group_of(
    r: Resource,
    layout: Seq<BindGroupLayoutEntry>,
    entries: Seq<Binding>,
) -> bool {
    r matches Resource::BindGroup(g) && g.layout@ == layout && g.entries@ == entries
}

/// `after` differs from `before` at most in the arena of `kind`.
pub open spec fn others_unchanged(
    before: RendererContext,
    after: RendererContext,
    kind: ResourceKind,
) -> bool {
    &&& after.configured() == before.configured()
    &&& forall|k: ResourceKind| k != kind ==> #[trigger] after.arena(k) == before.arena(k)
}

/// `after` is `before` with a new record of `kind` under `key`, and nothing
/// else changed.
pub open spec fn created(
    before: RendererContext,
    after: RendererContext,
    kind: ResourceKind,
    key: u64,
) -> bool {
    &&& arena_inserted(before.arena(kind), after.arena(kind), key, after.arena(kind)@[key])
    &&& others_unchanged(before, after, kind)
}

/// `after` is `before` with `key` removed from the arena of `kind`, and
/// nothing else changed.
pub open spec fn destroyed(
    before: RendererContext,
    after: RendererContext,
    kind: ResourceKind,
    key: u64,
) -> bool {
    &&& arena_removed(before.arena(kind), after.arena(kind), key)
    &&& others_unchanged(before, after, kind)
}

/// `x`, or 1 when `x` is zero.
pub open spec fn at_least_one(x: u32) -> u32 {
    if x == 0 {
        1
    } else {
        x
    }
}

impl RendererContext {
    /// The arena of one kind of resource.
    pub closed spec fn arena(self, kind: ResourceKind) -> HandleArena {
        match kind {
            ResourceKind::Shader => self.shaders,
            ResourceKind::RenderPipeline => self.render_pipelines,
            ResourceKind::ComputePipeline => self.compute_pipelines,
            ResourceKind::Buffer => self.buffers,
            ResourceKind::Texture => self.textures,
            ResourceKind::BindGroup => self.bind_groups,
        }
    }

    /// The resolution the surface is configured for.
    pub closed spec fn configured(self) -> Resolution {
        self.resolution
    }

    /// Every arena is finite and holds records of its own kind only.
    pub open spec fn wf(self) -> bool {
        forall|kind: ResourceKind|
            {
                &&& (#[trigger] self.arena(kind)).wf()
                &&& forall|k: u64|
                    self.arena(kind)@.contains_key(k) ==> is_kind(kind, #[trigger] self.arena(kind)@[k])
            }
    }

    /// Whether the resource under `key` of `kind` is live.
    pub open spec fn live(self, kind: ResourceKind, key: u64) -> bool {
        self.arena(kind)@.contains_key(key)
    }

    /// A context for a surface of the given size; a zero dimension is taken
    /// as 1.
    pub fn new(resolution: Resolution) -> (r: Self)
        ensures
            r.wf(),
            r.configured() == (Resolution {
                width: at_least_one(resolution.width),
                height: at_least_one(resolution.height),
            }),
            forall|kind: ResourceKind| (#[trigger] r.arena(kind))@ == Map::<u64, Resource>::empty(),
            forall|kind: ResourceKind| (#[trigger] r.arena(kind)).retired() == Set::<u64>::empty(),
    {
        let width = if resolution.width == 0 {
            1
        } else {
            resolution.width
        };
        let height = if resolution.height == 0 {
            1
        } else {
            resolution.height
        };
        RendererContext {
            resolution: Resolution { width, height },
            textures: HandleArena::new(),
            buffers: HandleArena::new(),
            shaders: HandleArena::new(),
            render_pipelines: HandleArena::new(),
            compute_pipelines: HandleArena::new(),
            bind_groups: HandleArena::new(),
        }
    }

    /// The resolution the surface is configured for.
    pub fn resolution(&self) -> (r: Resolution)
        ensures
            r == self.configured(),
    {
        self.resolution
    }

    /// Reconfigures the surface for a new size. A size with a zero dimension
    /// is ignored. Returns whether the surface must be reconfigured.
    pub fn resize(&mut self, resolution: Resolution) -> (r: bool)
        ensures
            r == (resolution.width > 0 && resolution.height > 0),
            r ==> final(self).configured() == resolution,
            !r ==> *final(self) == *old(self),
            forall|kind: ResourceKind| #[trigger] final(self).arena(kind) == old(self).arena(kind),
    {
        if resolution.width > 0 && resolution.height > 0 {
            self.resolution = resolution;
            true
        } else {
            false
        }
    }

    fn arena_ref(&self, kind: ResourceKind) -> (r: &HandleArena)
        ensures
            *r == self.arena(kind),
    {
        match kind {
            ResourceKind::Shader => &self.shaders,
            ResourceKind::RenderPipeline => &self.render_pipelines,
            ResourceKind::ComputePipeline => &self.compute_pipelines,
            ResourceKind::Buffer => &self.buffers,
            ResourceKind::Texture => &self.textures,
            ResourceKind::BindGroup => &self.bind_groups,
        }
    }

    /// Whether `key` is live in the arena of `kind`.
    pub(crate) fn contains(&self, kind: ResourceKind, key: u64) -> (r: bool)
        requires
            crate::handle::is_issued_key(key),
        ensures
            r == self.live(kind, key),
    {
        self.arena_ref(kind).contains(key)
    }

    /// The record under `key` in the arena of `kind`, if live.
    pub(crate) fn record(&self, kind: ResourceKind, key: u64) -> (r: Option<&Resource>)
        requires
            crate::handle::is_issued_key(key),
        ensures
            r is Some <==> self.live(kind, key),
            r is Some ==> *r.unwrap() == self.arena(kind)@[key],
    {
        self.arena_ref(kind).get(key)
    }

    /// Stores a record of `kind`.
    fn create(&mut self, kind: ResourceKind, value: Resource) -> (key: u64)
        requires
            old(self).wf(),
            is_kind(kind, value),
            has_room(old(self).arena(kind)@),
        ensures
            final(self).wf(),
            created(*old(self), *final(self), kind, key),
            final(self).arena(kind)@[key] == value,
    {
        let ghost v = value;
        proof {
            assert(self.arena(kind).wf());
        }
        let key = match kind {
            ResourceKind::Shader => self.shaders.insert(value),
            ResourceKind::RenderPipeline => self.render_pipelines.insert(value),
            ResourceKind::ComputePipeline => self.compute_pipelines.insert(value),
            ResourceKind::Buffer => self.buffers.insert(value),
            ResourceKind::Texture => self.textures.insert(value),
            ResourceKind::BindGroup => self.bind_groups.insert(value),
        };
        proof {
            assert(self.arena(kind)@[key] == v);
            assert forall|k: ResourceKind| k != kind implies #[trigger] self.arena(k) == old(
                self,
            ).arena(k) by {}
            assert(arena_inserted(old(self).arena(kind), self.arena(kind), key, v));
            assert forall|k: ResourceKind| #[trigger] self.arena(k).wf() && forall|x: u64|
                self.arena(k)@.contains_key(x) ==> is_kind(k, #[trigger] self.arena(k)@[x]) by {
                if k != kind {
                    assert(self.arena(k) == old(self).arena(k));
                } else {
                    assert forall|x: u64| self.arena(k)@.contains_key(x) implies is_kind(
                        k,
                        #[trigger] self.arena(k)@[x],
                    ) by {
                        if x != key {
                            assert(old(self).arena(k)@.contains_key(x));
                        }
                    }
                }
            }
        }
        key
    }

    /// Removes the record under `key` from the arena of `kind`, if live.
    fn discard(&mut self, kind: ResourceKind, key: u64)
        requires
            old(self).wf(),
            crate::handle::is_issued_key(key),
        ensures
            final(self).wf(),
            destroyed(*old(self), *final(self), kind, key),
    {
        proof {
            assert(self.arena(kind).wf());
        }
        let _ = match kind {
            ResourceKind::Shader => self.shaders.remove(key),
            ResourceKind::RenderPipeline => self.render_pipelines.remove(key),
            ResourceKind::ComputePipeline => self.compute_pipelines.remove(key),
            ResourceKind::Buffer => self.buffers.remove(key),
            ResourceKind::Texture => self.textures.remove(key),
            ResourceKind::BindGroup => self.bind_groups.remove(key),
        };
        proof {
            assert forall|k: ResourceKind| #[trigger] self.arena(k).wf() && forall|x: u64|
                self.arena(k)@.contains_key(x) ==> is_kind(k, #[trigger] self.arena(k)@[x]) by {
                if k != kind {
                    assert(self.arena(k) == old(self).arena(k));
                } else {
                    assert forall|x: u64| self.arena(k)@.contains_key(x) implies is_kind(
                        k,
                        #[trigger] self.arena(k)@[x],
                    ) by {
                        assert(old(self).arena(k)@.contains_key(x));
                    }
                }
            }
        }
    }
}


/// The texture descriptor under `key`, if it is live.
pub open spec fn texture_desc(ctx: RendererContext, key: u64) -> Option<TextureDescriptor> {
    match lookup(ctx.arena(ResourceKind::Texture)@, key) {
        Some(Resource::Texture(d)) => Some(d),
        _ => None,
    }
}

/// The contents of the buffer under `key`, if it is live.
pub open spec fn buffer_contents(ctx: RendererContext, key: u64) -> Option<Seq<u8>> {
    match lookup(ctx.arena(ResourceKind::Buffer)@, key) {
        Some(Resource::Buffer(b)) => Some(b.contents@),
        _ => None,
    }
}

/// The usage of the buffer under `key`, if it is live.
pub open spec fn buffer_usage(ctx: RendererContext, key: u64) -> Option<BufferUsages> {
    match lookup(ctx.arena(ResourceKind::Buffer)@, key) {
        Some(Resource::Buffer(b)) => Some(b.usage),
        _ => None,
    }
}

/// `old` with its first bytes replaced by `data`, which is no longer.
pub open spec fn overwritten(old: Seq<u8>, data: Seq<u8>) -> Seq<u8> {
    data + old.subrange(data.len() as int, old.len() as int)
}

/// A region of size `region` lies inside a texture of size `texture`.
pub open spec fn region_fits(region: Extent3d, texture: Extent3d) -> bool {
    &&& region.width <= texture.width
    &&& region.height <= texture.height
    &&& region.depth_or_array_layers <= texture.depth_or_array_layers
}

impl RendererContext {
    /// Registers a shader module compiled from `src`. `diagnostic` is what
    /// the device reported if that source failed to compile: then it is
    /// returned as the error and no shader is created.
    pub fn new_shader(&mut self, src: &str, diagnostic: Option<String>) -> (r: Result<
        ShaderHandle,
        RendererContextError,
    >)
        requires
            old(self).wf(),
            diagnostic is None ==> has_room(old(self).arena(ResourceKind::Shader)@),
        ensures
            final(self).wf(),
            diagnostic is Some ==> r == Err::<ShaderHandle, RendererContextError>(
                RendererContextError::CreateShaderModule(diagnostic->Some_0),
            ) && *final(self) == *old(self),
            diagnostic is None ==> r is Ok && created(
                *old(self),
                *final(self),
                ResourceKind::Shader,
                r->Ok_0.key(),
            ) && is_shader_of(final(self).arena(ResourceKind::Shader)@[r->Ok_0.key()], src@),
    {
        match diagnostic {
            Some(text) => Err(RendererContextError::CreateShaderModule(text)),
            None => {
                let record = Resource::Shader(ShaderRecord { source: src.to_owned() });
                let key = self.create(ResourceKind::Shader, record);
                Ok(ShaderHandle::from_key(key))
            },
        }
    }

    /// Destroys a shader; a stale handle is ignored.
    pub fn destroy_shader(&mut self, handle: ShaderHandle)
        requires
            old(self).wf(),
        ensures
            final(self).wf(),
            destroyed(*old(self), *final(self), ResourceKind::Shader, handle.key()),
    {
        self.discard(ResourceKind::Shader, handle.raw());
    }

    fn new_pipeline(&mut self, kind: ResourceKind, desc: &PipelineDesc) -> (key: u64)
        requires
            old(self).wf(),
            kind == ResourceKind::RenderPipeline || kind == ResourceKind::ComputePipeline,
            old(self).live(ResourceKind::Shader, desc.shader.key()),
            has_room(old(self).arena(kind)@),
        ensures
            final(self).wf(),
            created(*old(self), *final(self), kind, key),
            is_pipeline_of(
                kind,
                final(self).arena(kind)@[key],
                desc.shader,
                desc.bindings_layout@,
            ),
    {
        let record = PipelineRecord {
            shader: desc.shader,
            layout: copy_layout(desc.bindings_layout.as_slice()),
        };
        let value = if kind == ResourceKind::RenderPipeline {
            Resource::RenderPipeline(record)
        } else {
            Resource::ComputePipeline(record)
        };
        self.create(kind, value)
    }

    /// Builds a render pipeline from a live shader and a bind group layout.
    pub fn new_render_pipeline(&mut self, desc: &PipelineDesc) -> (r: RenderPipelineHandle)
        requires
            old(self).wf(),
            old(self).live(ResourceKind::Shader, desc.shader.key()),
            has_room(old(self).arena(ResourceKind::RenderPipeline)@),
        ensures
            final(self).wf(),
            created(*old(self), *final(self), ResourceKind::RenderPipeline, r.key()),
            is_pipeline_of(
                ResourceKind::RenderPipeline,
                final(self).arena(ResourceKind::RenderPipeline)@[r.key()],
                desc.shader,
                desc.bindings_layout@,
            ),
    {
        let key = self.new_pipeline(ResourceKind::RenderPipeline, desc);
        RenderPipelineHandle::from_key(key)
    }

    /// Destroys a render pipeline; a stale handle is ignored.
    pub fn destroy_render_pipeline(&mut self, handle: RenderPipelineHandle)
        requires
            old(self).wf(),
        ensures
            final(self).wf(),
            destroyed(*old(self), *final(self), ResourceKind::RenderPipeline, handle.key()),
    {
        self.discard(ResourceKind::RenderPipeline, handle.raw());
    }

    /// Builds a compute pipeline from a live shader and a bind group layout.
    pub fn new_compute_pipeline(&mut self, desc: &PipelineDesc) -> (r: ComputePipelineHandle)
        requires
            old(self).wf(),
            old(self).live(ResourceKind::Shader, desc.shader.key()),
            has_room(old(self).arena(ResourceKind::ComputePipeline)@),
        ensures
            final(self).wf(),
            created(*old(self), *final(self), ResourceKind::ComputePipeline, r.key()),
            is_pipeline_of(
                ResourceKind::ComputePipeline,
                final(self).arena(ResourceKind::ComputePipeline)@[r.key()],
                desc.shader,
                desc.bindings_layout@,
            ),
    {
        let key = self.new_pipeline(ResourceKind::ComputePipeline, desc);
        ComputePipelineHandle::from_key(key)
    }

    /// Destroys a compute pipeline; a stale handle is ignored.
    pub fn destroy_compute_pipeline(&mut self, handle: ComputePipelineHandle)
        requires
            old(self).wf(),
        ensures
            final(self).wf(),
            destroyed(*old(self), *final(self), ResourceKind::ComputePipeline, handle.key()),
    {
        self.discard(ResourceKind::ComputePipeline, handle.raw());
    }
}


impl RendererContext {
    fn new_bind_group(&mut self, kind: ResourceKind, pipeline: u64, bindings: &[Binding]) -> (r:
        Result<u64, RendererContextError>)
        requires
            old(self).wf(),
            kind == ResourceKind::RenderPipeline || kind == ResourceKind::ComputePipeline,
            crate::handle::is_issued_key(pipeline),
            old(self).live(kind, pipeline),
            has_room(old(self).arena(ResourceKind::BindGroup)@),
        ensures
            final(self).wf(),
            old(self).live(kind, pipeline) && !fills_layout(
                *old(self),
                layout_of(old(self).arena(kind)@[pipeline]),
                bindings@,
            ) ==> r == Err::<u64, RendererContextError>(RendererContextError::LayoutMismatch)
                && *final(self) == *old(self),
            old(self).live(kind, pipeline) && fills_layout(
                *old(self),
                layout_of(old(self).arena(kind)@[pipeline]),
                bindings@,
            ) ==> r is Ok && created(*old(self), *final(self), ResourceKind::BindGroup, r->Ok_0)
                && is_bind_group_of(
                final(self).arena(ResourceKind::BindGroup)@[r->Ok_0],
                layout_of(old(self).arena(kind)@[pipeline]),
                bindings@,
            ),
    {
        let layout = match self.record(kind, pipeline) {
            None => {
                return Err(RendererContextError::StaleHandle);
            },
            Some(Resource::RenderPipeline(p)) => copy_layout(p.layout.as_slice()),
            Some(Resource::ComputePipeline(p)) => copy_layout(p.layout.as_slice()),
            Some(_) => {
                proof {
                    assert(is_kind(kind, self.arena(kind)@[pipeline]));
                }
                return Err(RendererContextError::StaleHandle);
            },
        };
        if !bindings_fill_layout(self, layout.as_slice(), bindings) {
            return Err(RendererContextError::LayoutMismatch);
        }
        let mut entries: Vec<Binding> = Vec::new();
        let mut i: usize = 0;
        while i < bindings.len()
            invariant
                i <= bindings@.len(),
                entries@ == bindings@.subrange(0, i as int),
            decreases bindings@.len() - i,
        {
            entries.push(bindings[i]);
            i = i + 1;
        }
        assert(entries@ =~= bindings@);
        let value = Resource::BindGroup(BindGroupRecord { layout, entries });
        Ok(self.create(ResourceKind::BindGroup, value))
    }

    /// Builds a bind group for a live render pipeline. Fails with
    /// `LayoutMismatch` unless the bindings fill the pipeline's layout
    /// exactly; a stale pipeline is a programming error.
    pub fn new_render_bind_group(&mut self, pipeline: RenderPipelineHandle, bindings: &[Binding]) -> (r:
        Result<BindGroupHandle, RendererContextError>)
        requires
            old(self).wf(),
            old(self).live(ResourceKind::RenderPipeline, pipeline.key()),
            has_room(old(self).arena(ResourceKind::BindGroup)@),
        ensures
            final(self).wf(),
            old(self).live(ResourceKind::RenderPipeline, pipeline.key()) && !fills_layout(
                *old(self),
                layout_of(old(self).arena(ResourceKind::RenderPipeline)@[pipeline.key()]),
                bindings@,
            ) ==> r == Err::<BindGroupHandle, RendererContextError>(
                RendererContextError::LayoutMismatch,
            ) && *final(self) == *old(self),
            old(self).live(ResourceKind::RenderPipeline, pipeline.key()) && fills_layout(
                *old(self),
                layout_of(old(self).arena(ResourceKind::RenderPipeline)@[pipeline.key()]),
                bindings@,
            ) ==> r is Ok && created(
                *old(self),
                *final(self),
                ResourceKind::BindGroup,
                r->Ok_0.key(),
            ) && is_bind_group_of(
                final(self).arena(ResourceKind::BindGroup)@[r->Ok_0.key()],
                layout_of(old(self).arena(ResourceKind::RenderPipeline)@[pipeline.key()]),
                bindings@,
            ),
    {
        match self.new_bind_group(ResourceKind::RenderPipeline, pipeline.raw(), bindings) {
            Ok(key) => Ok(BindGroupHandle::from_key(key)),
            Err(e) => Err(e),
        }
    }

    /// Builds a bind group for a live compute pipeline. Fails with
    /// `LayoutMismatch` unless the bindings fill the pipeline's layout
    /// exactly; a stale pipeline is a programming error.
    pub fn new_compute_bind_group(&mut self, pipeline: ComputePipelineHandle, bindings: &[Binding]) -> (r:
        Result<BindGroupHandle, RendererContextError>)
        requires
            old(self).wf(),
            old(self).live(ResourceKind::ComputePipeline, pipeline.key()),
            has_room(old(self).arena(ResourceKind::BindGroup)@),
        ensures
            final(self).wf(),
            old(self).live(ResourceKind::ComputePipeline, pipeline.key()) && !fills_layout(
                *old(self),
                layout_of(old(self).arena(ResourceKind::ComputePipeline)@[pipeline.key()]),
                bindings@,
            ) ==> r == Err::<BindGroupHandle, RendererContextError>(
                RendererContextError::LayoutMismatch,
            ) && *final(self) == *old(self),
            old(self).live(ResourceKind::ComputePipeline, pipeline.key()) && fills_layout(
                *old(self),
                layout_of(old(self).arena(ResourceKind::ComputePipeline)@[pipeline.key()]),
                bindings@,
            ) ==> r is Ok && created(
                *old(self),
                *final(self),
                ResourceKind::BindGroup,
                r->Ok_0.key(),
            ) && is_bind_group_of(
                final(self).arena(ResourceKind::BindGroup)@[r->Ok_0.key()],
                layout_of(old(self).arena(ResourceKind::ComputePipeline)@[pipeline.key()]),
                bindings@,
            ),
    {
        match self.new_bind_group(ResourceKind::ComputePipeline, pipeline.raw(), bindings) {
            Ok(key) => Ok(BindGroupHandle::from_key(key)),
            Err(e) => Err(e),
        }
    }

    /// Destroys a bind group; a stale handle is ignored.
    pub fn destroy_bind_group(&mut self, handle: BindGroupHandle)
        requires
            old(self).wf(),
        ensures
            final(self).wf(),
            destroyed(*old(self), *final(self), ResourceKind::BindGroup, handle.key()),
    {
        self.discard(ResourceKind::BindGroup, handle.raw());
    }
}


/// Whether the pipeline under `pipeline` of `kind` and the bind group under
/// `bind_group` were built for the same layout, so a pass may use them
/// together.
pub open spec fn pass_layouts_match(
    ctx: RendererContext,
    kind: ResourceKind,
    pipeline: u64,
    bind_group: u64,
) -> bool {
    layout_of(ctx.arena(kind)@[pipeline]) == layout_of(
        ctx.arena(ResourceKind::BindGroup)@[bind_group],
    )
}

impl RendererContext {
    /// Creates a buffer holding `desc.contents`.
    pub fn new_buffer(&mut self, desc: &BufferInitDescriptor) -> (r: BufferHandle)
        requires
            old(self).wf(),
            has_room(old(self).arena(ResourceKind::Buffer)@),
        ensures
            final(self).wf(),
            created(*old(self), *final(self), ResourceKind::Buffer, r.key()),
            buffer_contents(*final(self), r.key()) == Some(desc.contents@),
            buffer_usage(*final(self), r.key()) == Some(desc.usage),
    {
        let record = BufferRecord {
            contents: copy_bytes(desc.contents.as_slice()),
            usage: desc.usage,
        };
        let key = self.create(ResourceKind::Buffer, Resource::Buffer(record));
        BufferHandle::from_key(key)
    }

    /// Destroys a buffer; a stale handle is ignored.
    pub fn destroy_buffer(&mut self, handle: BufferHandle)
        requires
            old(self).wf(),
        ensures
            final(self).wf(),
            destroyed(*old(self), *final(self), ResourceKind::Buffer, handle.key()),
    {
        self.discard(ResourceKind::Buffer, handle.raw());
    }

    /// Writes `contents` at the start of a live buffer that is large enough
    /// and returns whether it did. A stale handle, or contents longer than
    /// the buffer, leave everything unchanged.
    pub fn update_buffer(&mut self, handle: BufferHandle, contents: &[u8]) -> (r: bool)
        requires
            old(self).wf(),
        ensures
            final(self).wf(),
            r == (buffer_contents(*old(self), handle.key()) matches Some(c) && contents@.len()
                <= c.len()),
            r ==> buffer_contents(*final(self), handle.key()) == Some(
                overwritten(buffer_contents(*old(self), handle.key())->Some_0, contents@),
            ),
            r ==> buffer_usage(*final(self), handle.key()) == buffer_usage(*old(self), handle.key()),
            r ==> final(self).arena(ResourceKind::Buffer)@ == old(self).arena(
                ResourceKind::Buffer,
            )@.insert(handle.key(), final(self).arena(ResourceKind::Buffer)@[handle.key()]),
            final(self).arena(ResourceKind::Buffer).retired() == old(self).arena(
                ResourceKind::Buffer,
            ).retired(),
            others_unchanged(*old(self), *final(self), ResourceKind::Buffer),
            !r ==> *final(self) == *old(self),
    {
        let key = handle.raw();
        proof {
            assert(self.arena(ResourceKind::Buffer).wf());
        }
        let (written, usage) = match self.buffers.get(key) {
            Some(Resource::Buffer(b)) => {
                if contents.len() > b.contents.len() {
                    return false;
                }
                (overwrite(b.contents.as_slice(), contents), b.usage)
            },
            Some(_) => {
                proof {
                    assert(is_kind(ResourceKind::Buffer, self.arena(ResourceKind::Buffer)@[key]));
                }
                return false;
            },
            None => {
                return false;
            },
        };
        let record = Resource::Buffer(BufferRecord { contents: written, usage });
        let ghost v = record;
        self.buffers.replace(key, record);
        proof {
            assert forall|k: ResourceKind| k != ResourceKind::Buffer implies #[trigger] self.arena(
                k,
            ) == old(self).arena(k) by {}
            assert forall|k: ResourceKind| #[trigger] self.arena(k).wf() && forall|x: u64|
                self.arena(k)@.contains_key(x) ==> is_kind(k, #[trigger] self.arena(k)@[x]) by {
                if k != ResourceKind::Buffer {
                    assert(self.arena(k) == old(self).arena(k));
                } else {
                    assert forall|x: u64| self.arena(k)@.contains_key(x) implies is_kind(
                        k,
                        #[trigger] self.arena(k)@[x],
                    ) by {
                        if x != key {
                            assert(old(self).arena(k)@.contains_key(x));
                        }
                    }
                }
            }
            assert(self.arena(ResourceKind::Buffer)@[key] == v);
        }
        true
    }

    /// The contents of a live buffer.
    pub fn buffer_data(&self, handle: BufferHandle) -> (r: Option<&[u8]>)
        requires
            self.wf(),
        ensures
            r is None <==> buffer_contents(*self, handle.key()) is None,
            r matches Some(b) ==> buffer_contents(*self, handle.key()) == Some(b@),
    {
        match self.record(ResourceKind::Buffer, handle.raw()) {
            Some(Resource::Buffer(b)) => Some(b.contents.as_slice()),
            _ => None,
        }
    }

    /// Creates a texture as `desc` describes it.
    pub fn new_texture(&mut self, desc: &TextureDescriptor) -> (r: TextureHandle)
        requires
            old(self).wf(),
            has_room(old(self).arena(ResourceKind::Texture)@),
        ensures
            final(self).wf(),
            created(*old(self), *final(self), ResourceKind::Texture, r.key()),
            final(self).arena(ResourceKind::Texture)@[r.key()] == Resource::Texture(*desc),
    {
        let key = self.create(ResourceKind::Texture, Resource::Texture(*desc));
        TextureHandle::from_key(key)
    }

    /// Destroys a texture; a stale handle is ignored.
    pub fn destroy_texture(&mut self, handle: TextureHandle)
        requires
            old(self).wf(),
        ensures
            final(self).wf(),
            destroyed(*old(self), *final(self), ResourceKind::Texture, handle.key()),
    {
        self.discard(ResourceKind::Texture, handle.raw());
    }

    /// Recreates a live texture from a new descriptor, keeping its handle.
    /// A stale handle is a no-op; the result says whether the texture was
    /// live. Bind groups that use the texture must be rebuilt.
    pub fn update_texture(&mut self, handle: TextureHandle, desc: &TextureDescriptor) -> (r: bool)
        requires
            old(self).wf(),
        ensures
            final(self).wf(),
            r == old(self).live(ResourceKind::Texture, handle.key()),
            r ==> final(self).arena(ResourceKind::Texture)@ == old(self).arena(
                ResourceKind::Texture,
            )@.insert(handle.key(), Resource::Texture(*desc)),
            !r ==> *final(self) == *old(self),
            final(self).arena(ResourceKind::Texture).retired() == old(self).arena(
                ResourceKind::Texture,
            ).retired(),
            others_unchanged(*old(self), *final(self), ResourceKind::Texture),
    {
        let key = handle.raw();
        proof {
            assert(self.arena(ResourceKind::Texture).wf());
        }
        if !self.textures.contains(key) {
            return false;
        }
        let r = self.textures.replace(key, Resource::Texture(*desc));
        proof {
            assert forall|k: ResourceKind| k != ResourceKind::Texture implies #[trigger] self.arena(
                k,
            ) == old(self).arena(k) by {}
            assert forall|k: ResourceKind| #[trigger] self.arena(k).wf() && forall|x: u64|
                self.arena(k)@.contains_key(x) ==> is_kind(k, #[trigger] self.arena(k)@[x]) by {
                if k != ResourceKind::Texture {
                    assert(self.arena(k) == old(self).arena(k));
                } else {
                    assert forall|x: u64| self.arena(k)@.contains_key(x) implies is_kind(
                        k,
                        #[trigger] self.arena(k)@[x],
                    ) by {
                        if x != key {
                            assert(old(self).arena(k)@.contains_key(x));
                        }
                    }
                }
            }
        }
        r
    }

    /// Whether a region of size `size` may be written into the texture: it
    /// is live and the region lies inside it. A stale handle makes the write
    /// a no-op.
    pub fn write_texture(
        &self,
        handle: TextureHandle,
        data: &[u8],
        data_layout: ImageDataLayout,
        size: Extent3d,
    ) -> (r: bool)
        requires
            self.wf(),
        ensures
            r == (texture_desc(*self, handle.key()) matches Some(d) && region_fits(size, d.size)),
    {
        match self.record(ResourceKind::Texture, handle.raw()) {
            Some(Resource::Texture(d)) => size.width <= d.size.width && size.height <= d.size.height
                && size.depth_or_array_layers <= d.size.depth_or_array_layers,
            _ => false,
        }
    }

    /// The descriptor of a live texture.
    pub fn get_texture(&self, handle: TextureHandle) -> (r: Option<TextureDescriptor>)
        requires
            self.wf(),
        ensures
            r == texture_desc(*self, handle.key()),
    {
        match self.record(ResourceKind::Texture, handle.raw()) {
            Some(Resource::Texture(d)) => Some(*d),
            _ => None,
        }
    }

    /// Checks that a live pipeline of `kind` and a live bind group share a
    /// layout.
    pub(crate) fn check_pass(&self, kind: ResourceKind, pipeline: u64, bind_group: u64) -> (r:
        Result<(), RendererContextError>)
        requires
            self.wf(),
            kind == ResourceKind::RenderPipeline || kind == ResourceKind::ComputePipeline,
            crate::handle::is_issued_key(pipeline),
            crate::handle::is_issued_key(bind_group),
            self.live(kind, pipeline),
            self.live(ResourceKind::BindGroup, bind_group),
        ensures
            r is Ok <==> pass_layouts_match(*self, kind, pipeline, bind_group),
            r is Err ==> r == Err::<(), RendererContextError>(RendererContextError::LayoutMismatch),
    {
        let p = match self.record(kind, pipeline) {
            Some(p) => p,
            None => {
                return Err(RendererContextError::StaleHandle);
            },
        };
        let g = match self.record(ResourceKind::BindGroup, bind_group) {
            Some(g) => g,
            None => {
                return Err(RendererContextError::StaleHandle);
            },
        };
        proof {
            assert(is_kind(kind, self.arena(kind)@[pipeline]));
            assert(is_kind(ResourceKind::BindGroup, self.arena(ResourceKind::BindGroup)@[bind_group]));
        }
        let same = match (p, g) {
            (Resource::RenderPipeline(p), Resource::BindGroup(g)) => same_layout(
                p.layout.as_slice(),
                g.layout.as_slice(),
            ),
            (Resource::ComputePipeline(p), Resource::BindGroup(g)) => same_layout(
                p.layout.as_slice(),
                g.layout.as_slice(),
            ),
            _ => false,
        };
        if same {
            Ok(())
        } else {
            Err(RendererContextError::LayoutMismatch)
        }
    }

    /// Whether a shader is live.
    pub fn contains_shader(&self, handle: ShaderHandle) -> (r: bool)
        ensures
            r == self.live(ResourceKind::Shader, handle.key()),
    {
        self.contains(ResourceKind::Shader, handle.raw())
    }

    /// Whether a render pipeline is live.
    pub fn contains_render_pipeline(&self, handle: RenderPipelineHandle) -> (r: bool)
        ensures
            r == self.live(ResourceKind::RenderPipeline, handle.key()),
    {
        self.contains(ResourceKind::RenderPipeline, handle.raw())
    }

    /// Whether a compute pipeline is live.
    pub fn contains_compute_pipeline(&self, handle: ComputePipelineHandle) -> (r: bool)
        ensures
            r == self.live(ResourceKind::ComputePipeline, handle.key()),
    {
        self.contains(ResourceKind::ComputePipeline, handle.raw())
    }

    /// Whether a buffer is live.
    pub fn contains_buffer(&self, handle: BufferHandle) -> (r: bool)
        ensures
            r == self.live(ResourceKind::Buffer, handle.key()),
    {
        self.contains(ResourceKind::Buffer, handle.raw())
    }

    /// Whether a bind group is live.
    pub fn contains_bind_group(&self, handle: BindGroupHandle) -> (r: bool)
        ensures
            r == self.live(ResourceKind::BindGroup, handle.key()),
    {
        self.contains(ResourceKind::BindGroup, handle.raw())
    }

    /// The number of live render pipelines.
    pub fn render_pipeline_count(&self) -> (r: usize)
        ensures
            r == self.arena(ResourceKind::RenderPipeline)@.len(),
    {
        self.render_pipelines.len()
    }

    /// The number of live compute pipelines.
    pub fn compute_pipeline_count(&self) -> (r: usize)
        ensures
            r == self.arena(ResourceKind::ComputePipeline)@.len(),
    {
        self.compute_pipelines.len()
    }

    /// The number of live textures.
    pub fn texture_count(&self) -> (r: usize)
        ensures
            r == self.arena(ResourceKind::Texture)@.len(),
    {
        self.textures.len()
    }

    /// The number of live bind groups.
    pub fn bind_group_count(&self) -> (r: usize)
        ensures
            r == self.arena(ResourceKind::BindGroup)@.len(),
    {
        self.bind_groups.len()
    }

    /// The number of live shaders.
    pub fn shader_count(&self) -> (r: usize)
        ensures
            r == self.arena(ResourceKind::Shader)@.len(),
    {
        self.shaders.len()
    }

    /// The number of live buffers.
    pub fn buffer_count(&self) -> (r: usize)
        ensures
            r == self.arena(ResourceKind::Buffer)@.len(),
    {
        self.buffers.len()
    }
}

} // verus!
