//! Plain descriptions of the GPU resources that the arenas hold.
//!
//! These types carry, as plain values, everything that the library decides
//! on and everything that a device needs to create the matching GPU object.
use vstd::prelude::*;

use crate::handle::{BufferHandle, ShaderHandle, TextureHandle};

verus! {

/// Size of the presentation surface, in pixels.
#[derive(Clone, Copy, PartialEq, Eq, Structural, Debug)]
pub struct Resolution {
    pub width: u32,
    pub height: u32,
}

/// Pixel formats that textures and storage bindings may use.
#[derive(Clone, Copy, PartialEq, Eq, Structural, Debug)]
pub enum TextureFormat {
    Rgba8Unorm,
    Bgra8UnormSrgb,
    R32Uint,
}

/// Dimensionality of a texture or of a texture view.
#[derive(Clone, Copy, PartialEq, Eq, Structural, Debug)]
pub enum TextureDimension {
    D2,
    D3,
}

/// How a shader samples a bound texture.
#[derive(Clone, Copy, PartialEq, Eq, Structural, Debug)]
pub enum TextureSampleType {
    Float { filterable: bool },
    Uint,
}

/// Access that a shader has to a storage texture.
#[derive(Clone, Copy, PartialEq, Eq, Structural, Debug)]
pub enum StorageTextureAccess {
    WriteOnly,
    ReadOnly,
    ReadWrite,
}

/// How a shader reads a bound buffer.
#[derive(Clone, Copy, PartialEq, Eq, Structural, Debug)]
pub enum BufferBindingType {
    Uniform,
    Storage { read_only: bool },
}

/// The kind of resource that a layout slot expects.
#[derive(Clone, Copy, PartialEq, Eq, Structural, Debug)]
pub enum BindingType {
    Buffer { ty: BufferBindingType },
    Texture { sample_type: TextureSampleType, view_dimension: TextureDimension, multisampled: bool },
    StorageTexture {
        access: StorageTextureAccess,
        format: TextureFormat,
        view_dimension: TextureDimension,
    },
}

/// The shader stages that can see a binding.
#[derive(Clone, Copy, PartialEq, Eq, Structural, Debug)]
pub struct ShaderStages {
    pub vertex: bool,
    pub fragment: bool,
    pub compute: bool,
}

/// One slot of a pipeline's bind group layout.
#[derive(Clone, Copy, PartialEq, Eq, Structural, Debug)]
pub struct BindGroupLayoutEntry {
    pub binding: u32,
    pub visibility: ShaderStages,
    pub ty: BindingType,
}

/// The resource that a bind group entry points at.
#[derive(Clone, Copy, PartialEq, Eq, Structural, Debug)]
pub enum BindingResource {
    Texture(TextureHandle),
    Buffer(BufferHandle),
}

/// A resource offered for one slot of a bind group.
#[derive(Clone, Copy, PartialEq, Eq, Structural, Debug)]
pub struct Binding {
    pub binding: u32,
    pub resource: BindingResource,
}

/// What a buffer may be used for.
#[derive(Clone, Copy, PartialEq, Eq, Structural, Debug)]
pub struct BufferUsages {
    pub uniform: bool,
    pub storage: bool,
    pub copy_src: bool,
    pub copy_dst: bool,
}

/// What a texture may be used for.
#[derive(Clone, Copy, PartialEq, Eq, Structural, Debug)]
pub struct TextureUsages {
    pub copy_src: bool,
    pub copy_dst: bool,
    pub texture_binding: bool,
    pub storage_binding: bool,
    pub render_attachment: bool,
}

/// Extent of a texture or of a region of one.
#[derive(Clone, Copy, PartialEq, Eq, Structural, Debug)]
pub struct Extent3d {
    pub width: u32,
    pub height: u32,
    pub depth_or_array_layers: u32,
}

/// Layout of linear texel data in a byte buffer.
#[derive(Clone, Copy, PartialEq, Eq, Structural, Debug)]
pub struct ImageDataLayout {
    pub offset: u64,
    pub bytes_per_row: Option<u32>,
    pub rows_per_image: Option<u32>,
}

/// Everything needed to create a texture.
#[derive(Clone, Copy, PartialEq, Eq, Structural, Debug)]
pub struct TextureDescriptor {
    pub size: Extent3d,
    pub mip_level_count: u32,
    pub sample_count: u32,
    pub dimension: TextureDimension,
    pub format: TextureFormat,
    pub usage: TextureUsages,
}

/// A buffer to create, with its initial contents.
pub struct BufferInitDescriptor {
    pub contents: Vec<u8>,
    pub usage: BufferUsages,
}

/// The source text a shader module was compiled from.
pub struct ShaderRecord {
    pub source: String,
}

/// A pipeline: the shader it was built from and its bind group layout.
pub struct PipelineRecord {
    pub shader: ShaderHandle,
    pub layout: Vec<BindGroupLayoutEntry>,
}

/// A buffer: the bytes last written to it and its usage; its size is the
/// number of bytes.
pub struct BufferRecord {
    pub contents: Vec<u8>,
    pub usage: BufferUsages,
}

/// A bind group: the layout it satisfies and the resources bound to it.
pub struct BindGroupRecord {
    pub layout: Vec<BindGroupLayoutEntry>,
    pub entries: Vec<Binding>,
}

/// The six kinds of resource, one arena each.
#[derive(Clone, Copy, PartialEq, Eq, Structural, Debug)]
pub enum ResourceKind {
    Shader,
    RenderPipeline,
    ComputePipeline,
    Buffer,
    Texture,
    BindGroup,
}

/// What one arena slot holds.
pub enum Resource {
    Shader(ShaderRecord),
    RenderPipeline(PipelineRecord),
    ComputePipeline(PipelineRecord),
    Buffer(BufferRecord),
    Texture(TextureDescriptor),
    BindGroup(BindGroupRecord),
}

/// Whether `r` is a record of the given kind.
pub open spec fn is_kind(kind: ResourceKind, r: Resource) -> bool {
    match kind {
        ResourceKind::Shader => r is Shader,
        ResourceKind::RenderPipeline => r is RenderPipeline,
        ResourceKind::ComputePipeline => r is ComputePipeline,
        ResourceKind::Buffer => r is Buffer,
        ResourceKind::Texture => r is Texture,
        ResourceKind::BindGroup => r is BindGroup,
    }
}

/// The bind group layout of a pipeline record; empty for other records.
pub open spec fn layout_of(r: Resource) -> Seq<BindGroupLayoutEntry> {
    match r {
        Resource::RenderPipeline(p) => p.layout@,
        Resource::ComputePipeline(p) => p.layout@,
        Resource::BindGroup(g) => g.layout@,
        _ => Seq::empty(),
    }
}

/// Whether a layout slot of type `ty` accepts `resource`: buffers go to
/// buffer slots, textures to sampled or storage texture slots.
pub open spec fn accepts(ty: BindingType, resource: BindingResource) -> bool {
    match ty {
        BindingType::Buffer { .. } => resource is Buffer,
        _ => resource is Texture,
    }
}

/// Exec form of [`accepts`].
pub fn slot_accepts(ty: BindingType, resource: BindingResource) -> (r: bool)
    ensures
        r == accepts(ty, resource),
{
    match ty {
        BindingType::Buffer { .. } => matches!(resource, BindingResource::Buffer(_)),
        _ => matches!(resource, BindingResource::Texture(_)),
    }
}

/// Copies a layout entry by entry.
pub fn copy_layout(layout: &[BindGroupLayoutEntry]) -> (r: Vec<BindGroupLayoutEntry>)
    ensures
        r@ == layout@,
{
    let mut r: Vec<BindGroupLayoutEntry> = Vec::new();
    let mut i: usize = 0;
    while i < layout.len()
        invariant
            i <= layout@.len(),
            r@ == layout@.subrange(0, i as int),
        decreases layout@.len() - i,
    {
        r.push(layout[i]);
        i = i + 1;
    }
    assert(r@ == layout@.subrange(0, layout@.len() as int));
    r
}

/// Copies bytes one by one.
pub fn copy_bytes(bytes: &[u8]) -> (r: Vec<u8>)
    ensures
        r@ == bytes@,
{
    let mut r: Vec<u8> = Vec::new();
    let mut i: usize = 0;
    while i < bytes.len()
        invariant
            i <= bytes@.len(),
            r@ == bytes@.subrange(0, i as int),
        decreases bytes@.len() - i,
    {
        r.push(bytes[i]);
        i = i + 1;
    }
    assert(r@ == bytes@.subrange(0, bytes@.len() as int));
    r
}

/// `old` with its first bytes replaced by `data`.
pub fn overwrite(old: &[u8], data: &[u8]) -> (r: Vec<u8>)
    requires
        data@.len() <= old@.len(),
    ensures
        r@ == data@ + old@.subrange(data@.len() as int, old@.len() as int),
{
    let mut r: Vec<u8> = Vec::new();
    let mut i: usize = 0;
    while i < old.len()
        invariant
            data@.len() <= old@.len(),
            i <= old@.len(),
            r@.len() == i,
            forall|j: int| 0 <= j < i && j < data@.len() ==> r@[j] == data@[j],
            forall|j: int| data@.len() <= j < i ==> r@[j] == old@[j],
        decreases old@.len() - i,
    {
        if i < data.len() {
            r.push(data[i]);
        } else {
            r.push(old[i]);
        }
        i = i + 1;
    }
    assert(r@ =~= data@ + old@.subrange(data@.len() as int, old@.len() as int));
    r
}

/// Whether two layouts are the same slot for slot.
pub fn same_layout(a: &[BindGroupLayoutEntry], b: &[BindGroupLayoutEntry]) -> (r: bool)
    ensures
        r == (a@ == b@),
{
    if a.len() != b.len() {
        return false;
    }
    let mut i: usize = 0;
    while i < a.len()
        invariant
            i <= a@.len(),
            a@.len() == b@.len(),
            forall|j: int| 0 <= j < i ==> a@[j] == b@[j],
        decreases a@.len() - i,
    {
        if a[i] != b[i] {
            return false;
        }
        i = i + 1;
    }
    assert(a@ =~= b@);
    true
}

} // verus!
