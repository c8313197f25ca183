use octo_gfx::arena::HandleArena;
use octo_gfx::resource::{BufferRecord, Resource};
use octo_gfx::{
    BindGroupLayoutEntry, Binding, BindingResource, BindingType, BufferBindingType,
    BufferInitDescriptor, BufferUsages, Extent3d, ImageDataLayout, PipelineDesc, RendererContext,
    RendererContextError, Resolution, ShaderStages, StorageTextureAccess, TextureDescriptor,
    TextureDimension, TextureFormat, TextureSampleType, TextureUsages,
};

fn buffer_record(size: usize) -> Resource {
    Resource::Buffer(BufferRecord {
        contents: vec![0u8; size],
        usage: BufferUsages { uniform: true, storage: false, copy_src: false, copy_dst: true },
    })
}

fn size_of(r: Option<&Resource>) -> Option<usize> {
    match r {
        Some(Resource::Buffer(b)) => Some(b.contents.len()),
        _ => None,
    }
}

fn texture_desc(width: u32, height: u32) -> TextureDescriptor {
    TextureDescriptor {
        size: Extent3d { width, height, depth_or_array_layers: 1 },
        mip_level_count: 1,
        sample_count: 1,
        dimension: TextureDimension::D2,
        format: TextureFormat::Rgba8Unorm,
        usage: TextureUsages {
            copy_src: true,
            copy_dst: false,
            texture_binding: true,
            storage_binding: true,
            render_attachment: false,
        },
    }
}

fn uniform_desc(len: usize) -> BufferInitDescriptor {
    BufferInitDescriptor {
        contents: vec![0u8; len],
        usage: BufferUsages { uniform: true, storage: false, copy_src: false, copy_dst: true },
    }
}

fn fragment() -> ShaderStages {
    ShaderStages { vertex: false, fragment: true, compute: false }
}

fn render_layout() -> Vec<BindGroupLayoutEntry> {
    vec![
        BindGroupLayoutEntry {
            binding: 0,
            visibility: fragment(),
            ty: BindingType::Texture {
                sample_type: TextureSampleType::Float { filterable: true },
                view_dimension: TextureDimension::D2,
                multisampled: false,
            },
        },
        BindGroupLayoutEntry {
            binding: 1,
            visibility: fragment(),
            ty: BindingType::Buffer { ty: BufferBindingType::Uniform },
        },
    ]
}

#[test]
fn arena_handle_resolves_until_removed() {
    let mut arena = HandleArena::new();
    let a = arena.insert(buffer_record(4));
    let b = arena.insert(buffer_record(8));
    assert_ne!(a, b);
    assert_eq!(size_of(arena.get(a)), Some(4));
    assert_eq!(size_of(arena.get(b)), Some(8));
    assert_eq!(arena.len(), 2);
    let removed = arena.remove(a);
    assert_eq!(size_of(removed.as_ref()), Some(4));
    assert!(arena.get(a).is_none());
    assert!(!arena.contains(a));
    assert_eq!(size_of(arena.get(b)), Some(8));
    assert_eq!(arena.len(), 1);
}

#[test]
fn arena_stale_key_never_reaches_reused_slot() {
    let mut arena = HandleArena::new();
    let a = arena.insert(buffer_record(4));
    arena.remove(a);
    let c = arena.insert(buffer_record(16));
    assert_ne!(a, c);
    assert!(arena.get(a).is_none());
    assert_eq!(size_of(arena.get(c)), Some(16));
    assert!(arena.remove(a).is_none());
    assert_eq!(size_of(arena.get(c)), Some(16));
}

#[test]
fn arena_replace_keeps_key() {
    let mut arena = HandleArena::new();
    let a = arena.insert(buffer_record(4));
    assert!(arena.replace(a, buffer_record(12)));
    assert_eq!(size_of(arena.get(a)), Some(12));
    arena.remove(a);
    assert!(!arena.replace(a, buffer_record(1)));
    assert_eq!(arena.len(), 0);
}

#[test]
fn new_context_clamps_zero_resolution() {
    let ctx = RendererContext::new(Resolution { width: 0, height: 600 });
    assert_eq!(ctx.resolution(), Resolution { width: 1, height: 600 });
    assert_eq!(ctx.shader_count(), 0);
    assert_eq!(ctx.buffer_count(), 0);
    assert_eq!(ctx.texture_count(), 0);
}

#[test]
fn resize_with_zero_dimension_is_ignored() {
    let mut ctx = RendererContext::new(Resolution { width: 800, height: 600 });
    assert!(!ctx.resize(Resolution { width: 0, height: 300 }));
    assert_eq!(ctx.resolution(), Resolution { width: 800, height: 600 });
    assert!(!ctx.resize(Resolution { width: 300, height: 0 }));
    assert_eq!(ctx.resolution(), Resolution { width: 800, height: 600 });
    assert!(ctx.resize(Resolution { width: 1024, height: 768 }));
    assert_eq!(ctx.resolution(), Resolution { width: 1024, height: 768 });
}

#[test]
fn invalid_shader_is_rejected_without_trace() {
    let mut ctx = RendererContext::new(Resolution { width: 800, height: 600 });
    let ok = ctx.new_shader("@vertex fn vs_main() {}", None).unwrap();
    assert_eq!(ctx.shader_count(), 1);
    let r = ctx.new_shader("fn (", Some("expected identifier".to_string()));
    match r {
        Err(RendererContextError::CreateShaderModule(text)) => {
            assert_eq!(text, "expected identifier")
        },
        _ => panic!("compile error expected"),
    }
    assert_eq!(ctx.shader_count(), 1);
    assert!(ctx.contains_shader(ok));
}

#[test]
fn destroying_twice_is_harmless() {
    let mut ctx = RendererContext::new(Resolution { width: 800, height: 600 });
    let shader = ctx.new_shader("src", None).unwrap();
    let buffer = ctx.new_buffer(&uniform_desc(16));
    let texture = ctx.new_texture(&texture_desc(8, 8));
    ctx.destroy_shader(shader);
    ctx.destroy_shader(shader);
    ctx.destroy_buffer(buffer);
    ctx.destroy_buffer(buffer);
    ctx.destroy_texture(texture);
    ctx.destroy_texture(texture);
    assert_eq!(ctx.shader_count(), 0);
    assert_eq!(ctx.buffer_count(), 0);
    assert_eq!(ctx.texture_count(), 0);
    assert!(!ctx.contains_shader(shader));
    assert!(!ctx.contains_buffer(buffer));
    assert_eq!(ctx.get_texture(texture), None);
}

#[test]
fn stale_handle_after_slot_reuse() {
    let mut ctx = RendererContext::new(Resolution { width: 800, height: 600 });
    let first = ctx.new_buffer(&uniform_desc(16));
    ctx.destroy_buffer(first);
    let second = ctx.new_buffer(&uniform_desc(32));
    assert_ne!(first, second);
    assert!(!ctx.contains_buffer(first));
    assert!(ctx.contains_buffer(second));
    assert!(!ctx.update_buffer(first, &[1, 2, 3]));
    assert!(ctx.update_buffer(second, &[1, 2, 3]));
}

#[test]
fn update_buffer_checks_size() {
    let mut ctx = RendererContext::new(Resolution { width: 800, height: 600 });
    let buffer = ctx.new_buffer(&uniform_desc(4));
    assert!(ctx.update_buffer(buffer, &[1, 2, 3, 4]));
    assert!(!ctx.update_buffer(buffer, &[1, 2, 3, 4, 5]));
    assert_eq!(ctx.buffer_data(buffer), Some(&[1u8, 2, 3, 4][..]));
    assert!(ctx.update_buffer(buffer, &[]));
    assert_eq!(ctx.buffer_data(buffer), Some(&[1u8, 2, 3, 4][..]));
}

#[test]
fn buffer_keeps_initial_contents_and_partial_writes() {
    let mut ctx = RendererContext::new(Resolution { width: 800, height: 600 });
    let buffer = ctx.new_buffer(&BufferInitDescriptor {
        contents: vec![9, 8, 7, 6, 5],
        usage: BufferUsages { uniform: false, storage: true, copy_src: false, copy_dst: true },
    });
    assert_eq!(ctx.buffer_data(buffer), Some(&[9u8, 8, 7, 6, 5][..]));
    assert!(ctx.update_buffer(buffer, &[1, 2]));
    assert_eq!(ctx.buffer_data(buffer), Some(&[1u8, 2, 7, 6, 5][..]));
    ctx.destroy_buffer(buffer);
    assert_eq!(ctx.buffer_data(buffer), None);
}

#[test]
fn update_texture_replaces_descriptor_in_place() {
    let mut ctx = RendererContext::new(Resolution { width: 800, height: 600 });
    let texture = ctx.new_texture(&texture_desc(800, 600));
    assert!(ctx.update_texture(texture, &texture_desc(1024, 768)));
    assert_eq!(ctx.get_texture(texture), Some(texture_desc(1024, 768)));
    assert_eq!(ctx.texture_count(), 1);
    ctx.destroy_texture(texture);
    assert!(!ctx.update_texture(texture, &texture_desc(16, 16)));
    assert_eq!(ctx.texture_count(), 0);
}

#[test]
fn write_texture_needs_live_texture_and_fitting_region() {
    let mut ctx = RendererContext::new(Resolution { width: 800, height: 600 });
    let texture = ctx.new_texture(&texture_desc(32, 32));
    let layout = ImageDataLayout { offset: 0, bytes_per_row: Some(128), rows_per_image: Some(32) };
    let data = vec![0u8; 128 * 32];
    let full = Extent3d { width: 32, height: 32, depth_or_array_layers: 1 };
    let too_wide = Extent3d { width: 33, height: 32, depth_or_array_layers: 1 };
    let too_deep = Extent3d { width: 32, height: 32, depth_or_array_layers: 2 };
    assert!(ctx.write_texture(texture, &data, layout, full));
    assert!(!ctx.write_texture(texture, &data, layout, too_wide));
    assert!(!ctx.write_texture(texture, &data, layout, too_deep));
    ctx.destroy_texture(texture);
    assert!(!ctx.write_texture(texture, &data, layout, full));
}

#[test]
fn bind_group_with_every_slot_filled_succeeds() {
    let mut ctx = RendererContext::new(Resolution { width: 800, height: 600 });
    let shader = ctx.new_shader("render", None).unwrap();
    let pipeline =
        ctx.new_render_pipeline(&PipelineDesc { shader, bindings_layout: render_layout() });
    let texture = ctx.new_texture(&texture_desc(800, 600));
    let buffer = ctx.new_buffer(&uniform_desc(16));
    let bindings = [
        Binding { binding: 0, resource: BindingResource::Texture(texture) },
        Binding { binding: 1, resource: BindingResource::Buffer(buffer) },
    ];
    let group = ctx.new_render_bind_group(pipeline, &bindings).unwrap();
    assert!(ctx.contains_bind_group(group));
    assert_eq!(ctx.bind_group_count(), 1);
    let reversed = [bindings[1], bindings[0]];
    assert!(ctx.new_render_bind_group(pipeline, &reversed).is_ok());
    assert_eq!(ctx.bind_group_count(), 2);
}

#[test]
fn bind_group_missing_a_slot_fails() {
    let mut ctx = RendererContext::new(Resolution { width: 800, height: 600 });
    let shader = ctx.new_shader("render", None).unwrap();
    let pipeline =
        ctx.new_render_pipeline(&PipelineDesc { shader, bindings_layout: render_layout() });
    let texture = ctx.new_texture(&texture_desc(800, 600));
    let bindings = [Binding { binding: 0, resource: BindingResource::Texture(texture) }];
    assert!(matches!(
        ctx.new_render_bind_group(pipeline, &bindings),
        Err(RendererContextError::LayoutMismatch)
    ));
    assert_eq!(ctx.bind_group_count(), 0);
}

#[test]
fn bind_group_with_stale_resource_fails() {
    let mut ctx = RendererContext::new(Resolution { width: 800, height: 600 });
    let shader = ctx.new_shader("render", None).unwrap();
    let pipeline =
        ctx.new_render_pipeline(&PipelineDesc { shader, bindings_layout: render_layout() });
    let texture = ctx.new_texture(&texture_desc(800, 600));
    let buffer = ctx.new_buffer(&uniform_desc(16));
    ctx.destroy_buffer(buffer);
    let bindings = [
        Binding { binding: 0, resource: BindingResource::Texture(texture) },
        Binding { binding: 1, resource: BindingResource::Buffer(buffer) },
    ];
    assert!(matches!(
        ctx.new_render_bind_group(pipeline, &bindings),
        Err(RendererContextError::LayoutMismatch)
    ));
    assert_eq!(ctx.bind_group_count(), 0);
}

#[test]
fn bind_group_with_wrong_kind_or_duplicate_slot_fails() {
    let mut ctx = RendererContext::new(Resolution { width: 800, height: 600 });
    let shader = ctx.new_shader("render", None).unwrap();
    let pipeline =
        ctx.new_render_pipeline(&PipelineDesc { shader, bindings_layout: render_layout() });
    let texture = ctx.new_texture(&texture_desc(800, 600));
    let buffer = ctx.new_buffer(&uniform_desc(16));
    let swapped = [
        Binding { binding: 0, resource: BindingResource::Buffer(buffer) },
        Binding { binding: 1, resource: BindingResource::Texture(texture) },
    ];
    assert!(matches!(
        ctx.new_render_bind_group(pipeline, &swapped),
        Err(RendererContextError::LayoutMismatch)
    ));
    let duplicated = [
        Binding { binding: 0, resource: BindingResource::Texture(texture) },
        Binding { binding: 1, resource: BindingResource::Buffer(buffer) },
        Binding { binding: 1, resource: BindingResource::Buffer(buffer) },
    ];
    assert!(matches!(
        ctx.new_render_bind_group(pipeline, &duplicated),
        Err(RendererContextError::LayoutMismatch)
    ));
    let undeclared = [
        Binding { binding: 0, resource: BindingResource::Texture(texture) },
        Binding { binding: 1, resource: BindingResource::Buffer(buffer) },
        Binding { binding: 2, resource: BindingResource::Buffer(buffer) },
    ];
    assert!(matches!(
        ctx.new_render_bind_group(pipeline, &undeclared),
        Err(RendererContextError::LayoutMismatch)
    ));
    assert_eq!(ctx.bind_group_count(), 0);
}

#[test]
fn destroyed_pipeline_is_no_longer_live() {
    let mut ctx = RendererContext::new(Resolution { width: 800, height: 600 });
    let shader = ctx.new_shader("compute", None).unwrap();
    let layout = vec![BindGroupLayoutEntry {
        binding: 0,
        visibility: ShaderStages { vertex: false, fragment: false, compute: true },
        ty: BindingType::StorageTexture {
            access: StorageTextureAccess::WriteOnly,
            format: TextureFormat::Rgba8Unorm,
            view_dimension: TextureDimension::D2,
        },
    }];
    let pipeline = ctx.new_compute_pipeline(&PipelineDesc { shader, bindings_layout: layout });
    assert!(ctx.contains_compute_pipeline(pipeline));
    ctx.destroy_compute_pipeline(pipeline);
    assert!(!ctx.contains_compute_pipeline(pipeline));
    assert_eq!(ctx.compute_pipeline_count(), 0);
    assert_eq!(ctx.bind_group_count(), 0);
}

#[test]
fn destroying_a_pipeline_leaves_others() {
    let mut ctx = RendererContext::new(Resolution { width: 800, height: 600 });
    let shader = ctx.new_shader("render", None).unwrap();
    let a = ctx.new_render_pipeline(&PipelineDesc { shader, bindings_layout: render_layout() });
    let b = ctx.new_render_pipeline(&PipelineDesc { shader, bindings_layout: vec![] });
    assert_eq!(ctx.render_pipeline_count(), 2);
    ctx.destroy_render_pipeline(a);
    ctx.destroy_render_pipeline(a);
    assert!(!ctx.contains_render_pipeline(a));
    assert!(ctx.contains_render_pipeline(b));
    assert_eq!(ctx.render_pipeline_count(), 1);
    assert_eq!(ctx.shader_count(), 1);
}
