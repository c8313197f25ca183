//! Resource handles, the generational arena that owns GPU resource records,
//! the device context that creates and destroys them, the per-frame pass
//! recorder, bind group validation and shader hot reload.

pub mod arena;
pub mod binding;
pub mod context;
pub mod frame;
pub mod handle;
pub mod hot_reload;
pub mod input;
pub mod laws;
pub mod resource;
pub mod resources;
pub mod world;

pub use context::{PipelineDesc, RendererContext, RendererContextError, SurfaceError};
pub use frame::{
    surface_recovery, Color, ComputePass, ComputePassDesc, Dispatch, DrawCall, Frame, LoadOp,
    PassRecord, RenderPass, RenderPassDesc, SurfaceRecovery,
};
pub use handle::{
    BindGroupHandle, BufferHandle, ComputePipelineHandle, RenderPipelineHandle, ShaderHandle,
    TextureHandle,
};
pub use hot_reload::{find_target, reacts_to, reload, ChangeKind, PipelineHandle, PipelineKind, ReloadTarget};
pub use input::Modifiers;
pub use resource::{
    BindGroupLayoutEntry, Binding, BindingResource, BindingType, BufferBindingType,
    BufferInitDescriptor, BufferUsages, Extent3d, ImageDataLayout, Resolution, ShaderStages,
    StorageTextureAccess, TextureDescriptor, TextureDimension, TextureFormat, TextureSampleType,
    TextureUsages,
};
pub use resources::{BufferResource, Globals, Sprite};
pub use world::VoxelWorld;
