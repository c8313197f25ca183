//! Small resource owners built on the context: uniform buffers and the
//! compute sprite that writes into the voxel texture.
use vstd::prelude::*;

use crate::arena::has_room;
use crate::binding::fills_layout;
use crate::context::{
    buffer_contents, buffer_usage, created, is_bind_group_of, is_pipeline_of, is_shader_of, others_unchanged,
    overwritten, PipelineDesc,
    RendererContext, RendererContextError,
};
use crate::handle::{BindGroupHandle, BufferHandle, ComputePipelineHandle, ShaderHandle, TextureHandle};
use crate::resource::{
    BindGroupLayoutEntry, Binding, BindingResource, BindingType, BufferBindingType,
    BufferInitDescriptor, BufferUsages, copy_bytes, Resource, ResourceKind, ShaderStages,
    StorageTextureAccess, TextureDimension, TextureFormat,
};

verus! {

/// Usage of a uniform buffer that is rewritten from the CPU.
pub open spec fn uniform_usage() -> BufferUsages {
    BufferUsages { uniform: true, storage: false, copy_src: false, copy_dst: true }
}

/// The binding type of a uniform buffer.
pub open spec fn uniform_binding() -> BindingType {
    BindingType::Buffer { ty: BufferBindingType::Uniform }
}

fn uniform_buffer(renderer: &mut RendererContext, contents: &[u8]) -> (r: BufferHandle)
    requires
        old(renderer).wf(),
        has_room(old(renderer).arena(ResourceKind::Buffer)@),
    ensures
        final(renderer).wf(),
        created(*old(renderer), *final(renderer), ResourceKind::Buffer, r.key()),
        buffer_contents(*final(renderer), r.key()) == Some(contents@),
        buffer_usage(*final(renderer), r.key()) == Some(uniform_usage()),
{
    let bytes = copy_bytes(contents);
    let usage = BufferUsages { uniform: true, storage: false, copy_src: false, copy_dst: true };
    renderer.new_buffer(&BufferInitDescriptor { contents: bytes, usage })
}

/// A uniform buffer owned by one piece of game state.
pub struct BufferResource {
    buffer: BufferHandle,
}

impl BufferResource {
    /// The buffer this resource owns.
    pub closed spec fn handle(&self) -> BufferHandle {
        self.buffer
    }

    /// Creates a uniform buffer initialised with `data`.
    pub fn new(renderer: &mut RendererContext, data: &[u8]) -> (r: Self)
        requires
            old(renderer).wf(),
            has_room(old(renderer).arena(ResourceKind::Buffer)@),
        ensures
            final(renderer).wf(),
            created(*old(renderer), *final(renderer), ResourceKind::Buffer, r.handle().key()),
            buffer_contents(*final(renderer), r.handle().key()) == Some(data@),
            buffer_usage(*final(renderer), r.handle().key()) == Some(uniform_usage()),
    {
        BufferResource { buffer: uniform_buffer(renderer, data) }
    }

    /// Writes `data` at the start of the buffer if it is live and large
    /// enough; returns whether it did.
    pub fn update_buffer(&self, renderer: &mut RendererContext, data: &[u8]) -> (r: bool)
        requires
            old(renderer).wf(),
        ensures
            final(renderer).wf(),
            r == (buffer_contents(*old(renderer), self.handle().key()) matches Some(c)
                && data@.len() <= c.len()),
            r ==> buffer_contents(*final(renderer), self.handle().key()) == Some(
                overwritten(buffer_contents(*old(renderer), self.handle().key())->Some_0, data@),
            ),
            others_unchanged(*old(renderer), *final(renderer), ResourceKind::Buffer),
            !r ==> *final(renderer) == *old(renderer),
    {
        renderer.update_buffer(self.buffer, data)
    }

    /// The layout slot type under which the buffer is bound.
    pub fn binding_type(&self) -> (r: BindingType)
        ensures
            r == uniform_binding(),
    {
        BindingType::Buffer { ty: BufferBindingType::Uniform }
    }

    /// The buffer this resource owns.
    pub fn get_buffer(&self) -> (r: BufferHandle)
        ensures
            r == self.handle(),
    {
        self.buffer
    }
}

/// Values shared by every shader; the block has no fields yet, so its buffer
/// is empty.
pub struct Globals {
    buffer: BufferHandle,
}

impl Globals {
    /// The buffer holding the globals.
    pub closed spec fn handle(&self) -> BufferHandle {
        self.buffer
    }

    /// Creates the (empty) globals buffer.
    pub fn new(renderer: &mut RendererContext) -> (r: Self)
        requires
            old(renderer).wf(),
            has_room(old(renderer).arena(ResourceKind::Buffer)@),
        ensures
            final(renderer).wf(),
            created(*old(renderer), *final(renderer), ResourceKind::Buffer, r.handle().key()),
            buffer_contents(*final(renderer), r.handle().key()) == Some(Seq::<u8>::empty()),
            buffer_usage(*final(renderer), r.handle().key()) == Some(uniform_usage()),
    {
        let empty: Vec<u8> = Vec::new();
        Globals { buffer: uniform_buffer(renderer, empty.as_slice()) }
    }

    /// Writes the globals to their buffer if it is live; returns whether it
    /// did. The globals block is empty, so the buffer's contents stay as
    /// they are.
    pub fn update_buffer(&self, renderer: &mut RendererContext) -> (r: bool)
        requires
            old(renderer).wf(),
        ensures
            final(renderer).wf(),
            r == buffer_contents(*old(renderer), self.handle().key()) is Some,
            r ==> buffer_contents(*final(renderer), self.handle().key()) == buffer_contents(
                *old(renderer),
                self.handle().key(),
            ),
            others_unchanged(*old(renderer), *final(renderer), ResourceKind::Buffer),
            !r ==> *final(renderer) == *old(renderer),
    {
        let empty: Vec<u8> = Vec::new();
        renderer.update_buffer(self.buffer, empty.as_slice())
    }

    /// The layout slot type under which the globals are bound.
    pub fn binding_type(&self) -> (r: BindingType)
        ensures
            r == uniform_binding(),
    {
        BindingType::Buffer { ty: BufferBindingType::Uniform }
    }

    /// The buffer holding the globals.
    pub fn get_buffer(&self) -> (r: BufferHandle)
        ensures
            r == self.handle(),
    {
        self.buffer
    }
}

/// The layout of the sprite's compute pipeline: the voxel texture as a
/// write-only 3D storage texture in slot 0.
pub open spec fn sprite_layout() -> Seq<BindGroupLayoutEntry> {
    seq![
        BindGroupLayoutEntry {
            binding: 0,
            visibility: ShaderStages { vertex: false, fragment: false, compute: true },
            ty: BindingType::StorageTexture {
                access: StorageTextureAccess::WriteOnly,
                format: TextureFormat::R32Uint,
                view_dimension: TextureDimension::D3,
            },
        },
    ]
}

/// A compute shader that draws into the voxel texture, with its pipeline and
/// bind group.
pub struct Sprite {
    pub compute_shader: Option<ShaderHandle>,
    pub compute_pipeline: ComputePipelineHandle,
    pub compute_bind_group: BindGroupHandle,
}

impl Sprite {
    /// The layout of the sprite's compute pipeline.
    pub fn layout() -> (r: Vec<BindGroupLayoutEntry>)
        ensures
            r@ == sprite_layout(),
    {
        let mut layout: Vec<BindGroupLayoutEntry> = Vec::new();
        layout.push(
            BindGroupLayoutEntry {
                binding: 0,
                visibility: ShaderStages { vertex: false, fragment: false, compute: true },
                ty: BindingType::StorageTexture {
                    access: StorageTextureAccess::WriteOnly,
                    format: TextureFormat::R32Uint,
                    view_dimension: TextureDimension::D3,
                },
            },
        );
        assert(layout@ =~= sprite_layout());
        layout
    }

    /// Builds the sprite's shader from `source` (with the device's
    /// `diagnostic` if it failed to compile), its compute pipeline, and a bind
    /// group on the voxel texture `world`. Nothing is created if the source
    /// failed to compile or the texture is gone.
    pub fn new(
        renderer: &mut RendererContext,
        world: TextureHandle,
        source: &str,
        diagnostic: Option<String>,
    ) -> (r: Result<Sprite, RendererContextError>)
        requires
            old(renderer).wf(),
            has_room(old(renderer).arena(ResourceKind::Shader)@),
            has_room(old(renderer).arena(ResourceKind::ComputePipeline)@),
            has_room(old(renderer).arena(ResourceKind::BindGroup)@),
        ensures
            final(renderer).wf(),
            !old(renderer).live(ResourceKind::Texture, world.key()) ==> r == Err::<
                Sprite,
                RendererContextError,
            >(RendererContextError::StaleHandle) && *final(renderer) == *old(renderer),
            old(renderer).live(ResourceKind::Texture, world.key()) && diagnostic is Some ==> r
                == Err::<Sprite, RendererContextError>(
                RendererContextError::CreateShaderModule(diagnostic->Some_0),
            ) && *final(renderer) == *old(renderer),
            old(renderer).live(ResourceKind::Texture, world.key()) && diagnostic is None ==> {
                let s = r->Ok_0;
                &&& r is Ok
                &&& s.compute_shader is Some
                &&& final(renderer).live(ResourceKind::Shader, s.compute_shader->Some_0.key())
                &&& is_shader_of(
                    final(renderer).arena(ResourceKind::Shader)@[s.compute_shader->Some_0.key()],
                    source@,
                )
                &&& final(renderer).live(ResourceKind::ComputePipeline, s.compute_pipeline.key())
                &&& is_pipeline_of(
                    ResourceKind::ComputePipeline,
                    final(renderer).arena(ResourceKind::ComputePipeline)@[s.compute_pipeline.key()],
                    s.compute_shader->Some_0,
                    sprite_layout(),
                )
                &&& final(renderer).live(ResourceKind::BindGroup, s.compute_bind_group.key())
                &&& is_bind_group_of(
                    final(renderer).arena(ResourceKind::BindGroup)@[s.compute_bind_group.key()],
                    sprite_layout(),
                    seq![Binding { binding: 0, resource: BindingResource::Texture(world) }],
                )
            },
    {
        if !renderer.contains(ResourceKind::Texture, world.raw()) {
            return Err(RendererContextError::StaleHandle);
        }
        let shader = match renderer.new_shader(source, diagnostic) {
            Ok(s) => s,
            Err(e) => {
                return Err(e);
            },
        };
        let layout = Sprite::layout();
        let pipeline = renderer.new_compute_pipeline(
            &PipelineDesc { shader, bindings_layout: layout },
        );
        let binding = Binding { binding: 0, resource: BindingResource::Texture(world) };
        let mut bindings: Vec<Binding> = Vec::new();
        bindings.push(binding);
        let ghost ctx = *renderer;
        proof {
            assert(ctx.live(ResourceKind::Texture, world.key()));
            crate::laws::bindings_in_layout_order_fill(ctx, sprite_layout(), bindings@);
            assert(fills_layout(
                ctx,
                crate::resource::layout_of(ctx.arena(ResourceKind::ComputePipeline)@[pipeline.key()]),
                bindings@,
            ));
        }
        let bind_group = match renderer.new_compute_bind_group(pipeline, bindings.as_slice()) {
            Ok(g) => g,
            Err(e) => {
                return Err(e);
            },
        };
        proof {
            assert(bindings@ =~= seq![Binding { binding: 0, resource: BindingResource::Texture(world) }]);
        }
        Ok(Sprite { compute_shader: Some(shader), compute_pipeline: pipeline, compute_bind_group: bind_group })
    }
}

} // verus!
