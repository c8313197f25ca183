//! The voxel world: a cube of `u32` voxels mirrored in a 3D texture.
use vstd::prelude::*;

use crate::arena::has_room;
use crate::context::{created, region_fits, texture_desc, RendererContext};
use crate::handle::TextureHandle;
use crate::resource::{
    BindingType, Extent3d, ImageDataLayout, Resource, ResourceKind, TextureDescriptor,
    TextureDimension, TextureFormat, TextureSampleType, TextureUsages,
};

verus! {

/// Voxels along each edge of the world.
pub const WORLD_SIZE: u32 = 32;

/// Voxels in the whole world.
pub const VOXEL_COUNT: usize = 32768;

/// Position of voxel (x, y, z) in the flat voxel array: x is the slowest
/// axis, z the fastest.
pub open spec fn voxel_index(x: u32, y: u32, z: u32) -> int {
    (x as int) * 1024 + (y as int) * 32 + z as int
}

/// The extent of the world and of its texture.
pub open spec fn world_extent() -> Extent3d {
    Extent3d { width: 32, height: 32, depth_or_array_layers: 32 }
}

/// The texture the world is mirrored in.
pub open spec fn world_texture_desc() -> TextureDescriptor {
    TextureDescriptor {
        size: world_extent(),
        mip_level_count: 1,
        sample_count: 1,
        dimension: TextureDimension::D3,
        format: TextureFormat::R32Uint,
        usage: TextureUsages {
            copy_src: false,
            copy_dst: true,
            texture_binding: true,
            storage_binding: true,
            render_attachment: false,
        },
    }
}

/// How the voxel bytes are laid out for upload: rows of 32 texels of 4 bytes,
/// 32 rows per slice.
pub open spec fn upload_layout() -> ImageDataLayout {
    ImageDataLayout { offset: 0, bytes_per_row: Some(128), rows_per_image: Some(32) }
}

/// The four bytes that stand for texel `i` in an upload.
pub open spec fn texel_group(bytes: Seq<u8>, i: int) -> Seq<u8> {
    bytes.subrange(4 * i, 4 * i + 4)
}

/// Relies on `bytemuck::cast_slice`: the texels reinterpreted as bytes, four
/// per texel in the machine's byte order. Whatever that order, a zero texel
/// gives four zero bytes, and each group of four depends on its texel alone,
/// one-to-one: two groups are equal exactly when their texels are.
#[verifier::external_body]
fn texel_bytes(texels: &[u32]) -> (r: Vec<u8>)
    ensures
        r@.len() == 4 * texels@.len(),
        forall|i: int| 0 <= i < r@.len() && texels@[i / 4] == 0 ==> r@[i] == 0,
        forall|i: int, j: int|
            0 <= i < texels@.len() && 0 <= j < texels@.len() ==> (#[trigger] texels@[i]
                == #[trigger] texels@[j] <==> texel_group(r@, i) == texel_group(r@, j)),
{
    bytemuck::cast_slice::<u32, u8>(texels).to_vec()
}

/// A 32³ grid of voxels and the texture that mirrors it on the GPU.
pub struct VoxelWorld {
    data: Vec<u32>,
    texture: TextureHandle,
}

impl VoxelWorld {
    /// The voxels, flattened by [`voxel_index`].
    pub closed spec fn voxels(&self) -> Seq<u32> {
        self.data@
    }

    /// The texture that mirrors the world.
    pub closed spec fn texture(&self) -> TextureHandle {
        self.texture
    }

    /// The world holds exactly one value per voxel.
    pub open spec fn wf(&self) -> bool {
        self.voxels().len() == VOXEL_COUNT
    }

    /// An empty world (every voxel 0) and a new texture for it.
    pub fn new(renderer: &mut RendererContext) -> (r: Self)
        requires
            old(renderer).wf(),
            has_room(old(renderer).arena(ResourceKind::Texture)@),
        ensures
            final(renderer).wf(),
            r.wf(),
            forall|i: int| 0 <= i < VOXEL_COUNT ==> r.voxels()[i] == 0,
            created(*old(renderer), *final(renderer), ResourceKind::Texture, r.texture().key()),
            final(renderer).arena(ResourceKind::Texture)@[r.texture().key()] == Resource::Texture(
                world_texture_desc(),
            ),
    {
        let mut data: Vec<u32> = Vec::new();
        let mut i: usize = 0;
        while i < VOXEL_COUNT
            invariant
                i <= VOXEL_COUNT,
                data@.len() == i,
                forall|j: int| 0 <= j < i ==> data@[j] == 0,
            decreases VOXEL_COUNT - i,
        {
            data.push(0);
            i = i + 1;
        }
        let desc = TextureDescriptor {
            size: Extent3d { width: WORLD_SIZE, height: WORLD_SIZE, depth_or_array_layers: WORLD_SIZE },
            mip_level_count: 1,
            sample_count: 1,
            dimension: TextureDimension::D3,
            format: TextureFormat::R32Uint,
            usage: TextureUsages {
                copy_src: false,
                copy_dst: true,
                texture_binding: true,
                storage_binding: true,
                render_attachment: false,
            },
        };
        let texture = renderer.new_texture(&desc);
        VoxelWorld { data, texture }
    }

    /// Sets voxel (x, y, z).
    pub fn set_voxel_at(&mut self, value: u32, x: u32, y: u32, z: u32)
        requires
            old(self).wf(),
            x < WORLD_SIZE,
            y < WORLD_SIZE,
            z < WORLD_SIZE,
        ensures
            final(self).wf(),
            final(self).voxels() == old(self).voxels().update(voxel_index(x, y, z), value),
            final(self).texture() == old(self).texture(),
    {
        let index = (x as usize) * 1024 + (y as usize) * 32 + (z as usize);
        self.data.set(index, value);
    }

    /// Voxel (x, y, z).
    pub fn voxel_at(&self, x: u32, y: u32, z: u32) -> (r: u32)
        requires
            self.wf(),
            x < WORLD_SIZE,
            y < WORLD_SIZE,
            z < WORLD_SIZE,
        ensures
            r == self.voxels()[voxel_index(x, y, z)],
    {
        self.data[(x as usize) * 1024 + (y as usize) * 32 + (z as usize)]
    }

    /// The world's extent in voxels.
    pub fn get_size(&self) -> (r: Extent3d)
        ensures
            r == world_extent(),
    {
        Extent3d { width: WORLD_SIZE, height: WORLD_SIZE, depth_or_array_layers: WORLD_SIZE }
    }

    /// The texture that mirrors the world.
    pub fn get_texture(&self) -> (r: TextureHandle)
        ensures
            r == self.texture(),
    {
        self.texture
    }

    /// How shaders read the world texture: unsigned 3D texels.
    pub fn binding_type() -> (r: BindingType)
        ensures
            r == (BindingType::Texture {
                sample_type: TextureSampleType::Uint,
                view_dimension: TextureDimension::D3,
                multisampled: false,
            }),
    {
        BindingType::Texture {
            sample_type: TextureSampleType::Uint,
            view_dimension: TextureDimension::D3,
            multisampled: false,
        }
    }

    /// The bytes to upload into the world texture, with the layout and extent
    /// of the upload; `None` if the texture is gone or cannot take the whole
    /// world.
    pub fn update_texture(&self, renderer: &RendererContext) -> (r: Option<(Vec<u8>, ImageDataLayout, Extent3d)>)
        requires
            renderer.wf(),
            self.wf(),
        ensures
            r is Some <==> (texture_desc(*renderer, self.texture().key()) matches Some(d)
                && region_fits(world_extent(), d.size)),
            r matches Some(u) ==> u.0@.len() == 4 * VOXEL_COUNT && u.1 == upload_layout() && u.2
                == world_extent(),
            r matches Some(u) ==> forall|i: int|
                0 <= i < u.0@.len() && self.voxels()[i / 4] == 0 ==> u.0@[i] == 0,
            r matches Some(u) ==> forall|i: int, j: int|
                0 <= i < VOXEL_COUNT && 0 <= j < VOXEL_COUNT ==> (#[trigger] self.voxels()[i]
                    == #[trigger] self.voxels()[j] <==> texel_group(u.0@, i) == texel_group(
                    u.0@,
                    j,
                )),
    {
        let layout = ImageDataLayout { offset: 0, bytes_per_row: Some(4 * WORLD_SIZE), rows_per_image: Some(WORLD_SIZE) };
        let extent = self.get_size();
        let bytes = texel_bytes(self.data.as_slice());
        if renderer.write_texture(self.texture, bytes.as_slice(), layout, extent) {
            Some((bytes, layout, extent))
        } else {
            None
        }
    }
}

} // verus!
