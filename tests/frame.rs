use octo_gfx::{
    find_target, reacts_to, reload, surface_recovery, BindGroupLayoutEntry, Binding,
    BindingResource, BindingType, BufferBindingType, BufferInitDescriptor, BufferResource,
    BufferUsages, ChangeKind, Color, ComputePassDesc, Extent3d, Globals, LoadOp, PassRecord,
    PipelineDesc, PipelineHandle, PipelineKind, ReloadTarget, RenderPassDesc, RendererContext,
    RendererContextError, Resolution, ShaderStages, Sprite, StorageTextureAccess, SurfaceError,
    SurfaceRecovery, TextureDescriptor, TextureDimension, TextureFormat, TextureSampleType,
    TextureUsages,
};

fn texture_desc(
    width: u32,
    height: u32,
    depth: u32,
    dimension: TextureDimension,
    format: TextureFormat,
) -> TextureDescriptor {
    TextureDescriptor {
        size: Extent3d { width, height, depth_or_array_layers: depth },
        mip_level_count: 1,
        sample_count: 1,
        dimension,
        format,
        usage: TextureUsages {
            copy_src: true,
            copy_dst: true,
            texture_binding: true,
            storage_binding: true,
            render_attachment: false,
        },
    }
}

fn compute() -> ShaderStages {
    ShaderStages { vertex: false, fragment: false, compute: true }
}

fn compute_layout() -> Vec<BindGroupLayoutEntry> {
    vec![
        BindGroupLayoutEntry {
            binding: 0,
            visibility: compute(),
            ty: BindingType::StorageTexture {
                access: StorageTextureAccess::WriteOnly,
                format: TextureFormat::Rgba8Unorm,
                view_dimension: TextureDimension::D2,
            },
        },
        BindGroupLayoutEntry {
            binding: 1,
            visibility: compute(),
            ty: BindingType::Buffer { ty: BufferBindingType::Uniform },
        },
    ]
}

fn render_layout() -> Vec<BindGroupLayoutEntry> {
    vec![BindGroupLayoutEntry {
        binding: 0,
        visibility: ShaderStages { vertex: false, fragment: true, compute: false },
        ty: BindingType::Texture {
            sample_type: TextureSampleType::Float { filterable: true },
            view_dimension: TextureDimension::D2,
            multisampled: false,
        },
    }]
}

fn uniform(len: usize) -> BufferInitDescriptor {
    BufferInitDescriptor {
        contents: vec![7u8; len],
        usage: BufferUsages { uniform: true, storage: false, copy_src: false, copy_dst: true },
    }
}

#[test]
fn full_frame_cycle() {
    let mut ctx = RendererContext::new(Resolution { width: 800, height: 600 });
    let compute_shader = ctx.new_shader("compute", None).unwrap();
    let render_shader = ctx.new_shader("render", None).unwrap();
    let compute_pipeline = ctx.new_compute_pipeline(&PipelineDesc {
        shader: compute_shader,
        bindings_layout: compute_layout(),
    });
    let render_pipeline = ctx.new_render_pipeline(&PipelineDesc {
        shader: render_shader,
        bindings_layout: render_layout(),
    });
    let buffer = ctx.new_buffer(&uniform(32));
    let output = ctx.new_texture(&texture_desc(
        800,
        600,
        1,
        TextureDimension::D2,
        TextureFormat::Rgba8Unorm,
    ));
    let compute_group = ctx
        .new_compute_bind_group(compute_pipeline, &[
            Binding { binding: 0, resource: BindingResource::Texture(output) },
            Binding { binding: 1, resource: BindingResource::Buffer(buffer) },
        ])
        .unwrap();
    let render_group = ctx
        .new_render_bind_group(render_pipeline, &[Binding {
            binding: 0,
            resource: BindingResource::Texture(output),
        }])
        .unwrap();
    assert_eq!(ctx.render_pipeline_count(), 1);
    assert_eq!(ctx.compute_pipeline_count(), 1);
    assert_eq!(ctx.bind_group_count(), 2);
    assert_eq!(ctx.shader_count(), 2);
    assert_eq!(ctx.buffer_count(), 1);
    assert_eq!(ctx.texture_count(), 1);

    let mut frame = ctx.begin_frame(Ok(())).unwrap().unwrap();
    let mut cpass = frame
        .begin_compute_pass(&ComputePassDesc { bind_group: compute_group, pipeline: compute_pipeline })
        .unwrap();
    cpass.dispatch(100, 75, 1);
    frame.end_compute_pass(cpass);
    let green = Color { r: 0, g: 255, b: 0, a: 255 };
    let mut rpass = frame
        .begin_render_pass(&RenderPassDesc {
            bind_group: render_group,
            pipeline: render_pipeline,
            load_op: LoadOp::Clear(green),
        })
        .unwrap();
    rpass.draw(0..3, 0..1);
    frame.end_render_pass(rpass);
    let passes = ctx.commit_frame(frame);

    assert_eq!(passes.len(), 2);
    match &passes[0] {
        PassRecord::Compute(p) => {
            assert_eq!(p.desc().pipeline, compute_pipeline);
            assert_eq!(p.desc().bind_group, compute_group);
            assert_eq!(p.dispatches().len(), 1);
            assert_eq!((p.dispatches()[0].x, p.dispatches()[0].y, p.dispatches()[0].z), (100, 75, 1));
        },
        PassRecord::Render(_) => panic!("compute pass expected first"),
    }
    match &passes[1] {
        PassRecord::Render(p) => {
            assert_eq!(p.desc().pipeline, render_pipeline);
            assert_eq!(p.desc().load_op, LoadOp::Clear(green));
            assert_eq!(p.draws().len(), 1);
            assert_eq!(p.draws()[0].vertices, 0..3);
            assert_eq!(p.draws()[0].instances, 0..1);
        },
        PassRecord::Compute(_) => panic!("render pass expected second"),
    }
    assert_eq!(ctx.render_pipeline_count(), 1);
    assert_eq!(ctx.compute_pipeline_count(), 1);
}

#[test]
fn failed_acquisition_opens_no_frame() {
    let ctx = RendererContext::new(Resolution { width: 800, height: 600 });
    assert!(matches!(ctx.begin_frame(Err(SurfaceError::Lost)), Ok(None)));
    assert!(matches!(ctx.begin_frame(Err(SurfaceError::Timeout)), Ok(None)));
    assert!(matches!(ctx.begin_frame(Err(SurfaceError::Outdated)), Ok(None)));
    assert!(matches!(ctx.begin_frame(Ok(())), Ok(Some(_))));
}

#[test]
fn out_of_memory_is_fatal() {
    let ctx = RendererContext::new(Resolution { width: 800, height: 600 });
    assert!(matches!(
        ctx.begin_frame(Err(SurfaceError::OutOfMemory)),
        Err(RendererContextError::SurfaceError(SurfaceError::OutOfMemory))
    ));
}

#[test]
fn surface_errors_map_to_recovery() {
    assert_eq!(surface_recovery(SurfaceError::Lost), SurfaceRecovery::Reconfigure);
    assert_eq!(surface_recovery(SurfaceError::OutOfMemory), SurfaceRecovery::Exit);
    assert_eq!(surface_recovery(SurfaceError::Timeout), SurfaceRecovery::Skip);
    assert_eq!(surface_recovery(SurfaceError::Outdated), SurfaceRecovery::Skip);
}

#[test]
fn passes_reject_mismatched_layouts() {
    let mut ctx = RendererContext::new(Resolution { width: 800, height: 600 });
    let shader = ctx.new_shader("render", None).unwrap();
    let with_layout =
        ctx.new_render_pipeline(&PipelineDesc { shader, bindings_layout: render_layout() });
    let without_layout = ctx.new_render_pipeline(&PipelineDesc { shader, bindings_layout: vec![] });
    let texture =
        ctx.new_texture(&texture_desc(8, 8, 1, TextureDimension::D2, TextureFormat::Rgba8Unorm));
    let group = ctx
        .new_render_bind_group(with_layout, &[Binding {
            binding: 0,
            resource: BindingResource::Texture(texture),
        }])
        .unwrap();
    let frame = ctx.begin_frame(Ok(())).unwrap().unwrap();
    let mismatched = frame.begin_render_pass(&RenderPassDesc {
        bind_group: group,
        pipeline: without_layout,
        load_op: LoadOp::Load,
    });
    assert!(matches!(mismatched, Err(RendererContextError::LayoutMismatch)));
    let fine = frame.begin_render_pass(&RenderPassDesc {
        bind_group: group,
        pipeline: with_layout,
        load_op: LoadOp::Load,
    });
    assert!(fine.is_ok());
    let passes = ctx.commit_frame(frame);
    assert!(passes.is_empty());
}

#[test]
fn change_events_select_modified_identity() {
    let render = "render".to_string();
    let compute = "compute".to_string();
    assert!(reacts_to(ChangeKind::Modified, &render, &render));
    assert!(!reacts_to(ChangeKind::Created, &render, &render));
    assert!(!reacts_to(ChangeKind::Removed, &render, &render));
    assert!(!reacts_to(ChangeKind::Modified, &compute, &render));
    let targets = vec![
        ReloadTarget::new(render.clone(), PipelineKind::Render, render_layout()),
        ReloadTarget::new(compute.clone(), PipelineKind::Compute, compute_layout()),
    ];
    assert_eq!(find_target(&targets, ChangeKind::Modified, &compute), Some(1));
    assert_eq!(find_target(&targets, ChangeKind::Modified, &render), Some(0));
    assert_eq!(find_target(&targets, ChangeKind::Created, &compute), None);
    assert_eq!(find_target(&targets, ChangeKind::Modified, &"other".to_string()), None);
}

#[test]
fn hot_reload_replaces_only_its_pipeline() {
    let mut ctx = RendererContext::new(Resolution { width: 800, height: 600 });
    let mut render = ReloadTarget::new("render".to_string(), PipelineKind::Render, render_layout());
    let mut compute =
        ReloadTarget::new("compute".to_string(), PipelineKind::Compute, compute_layout());
    reload(&mut ctx, &mut render, "render v1", None).unwrap();
    reload(&mut ctx, &mut compute, "compute v1", None).unwrap();
    let buffer = ctx.new_buffer(&uniform(16));
    let texture =
        ctx.new_texture(&texture_desc(8, 8, 1, TextureDimension::D2, TextureFormat::Rgba8Unorm));
    let old_render = render.render_pipeline().unwrap();
    let old_shader = render.shader().unwrap();
    let compute_before = compute.pipeline();
    let compute_shader_before = compute.shader();

    reload(&mut ctx, &mut render, "render v2", None).unwrap();

    let new_render = render.render_pipeline().unwrap();
    assert_ne!(new_render, old_render);
    assert_ne!(render.shader().unwrap(), old_shader);
    assert!(!ctx.contains_render_pipeline(old_render));
    assert!(!ctx.contains_shader(old_shader));
    assert!(ctx.contains_render_pipeline(new_render));
    assert_eq!(compute.pipeline(), compute_before);
    assert_eq!(compute.shader(), compute_shader_before);
    assert!(ctx.contains_compute_pipeline(compute.compute_pipeline().unwrap()));
    assert!(ctx.contains_buffer(buffer));
    assert!(ctx.update_buffer(buffer, &[0u8; 16]));
    assert!(!ctx.update_buffer(buffer, &[0u8; 17]));
    assert_eq!(
        ctx.get_texture(texture),
        Some(texture_desc(8, 8, 1, TextureDimension::D2, TextureFormat::Rgba8Unorm))
    );
    assert_eq!(ctx.render_pipeline_count(), 1);
    assert_eq!(ctx.compute_pipeline_count(), 1);
    assert_eq!(ctx.shader_count(), 2);
}

#[test]
fn hot_reload_compile_failure_leaves_pipeline_absent() {
    let mut ctx = RendererContext::new(Resolution { width: 800, height: 600 });
    let mut render = ReloadTarget::new("render".to_string(), PipelineKind::Render, render_layout());
    reload(&mut ctx, &mut render, "render v1", None).unwrap();
    let old_pipeline = render.render_pipeline().unwrap();
    let r = reload(&mut ctx, &mut render, "render v2 (", Some("unexpected end".to_string()));
    match r {
        Err(RendererContextError::CreateShaderModule(text)) => assert_eq!(text, "unexpected end"),
        _ => panic!("compile error expected"),
    }
    assert_eq!(render.shader(), None);
    assert_eq!(render.pipeline(), None);
    assert!(!ctx.contains_render_pipeline(old_pipeline));
    assert_eq!(ctx.render_pipeline_count(), 0);
    assert_eq!(ctx.shader_count(), 0);
    reload(&mut ctx, &mut render, "render v3", None).unwrap();
    assert!(matches!(render.pipeline(), Some(PipelineHandle::Render(_))));
    assert_eq!(ctx.render_pipeline_count(), 1);
}

#[test]
fn sprite_builds_shader_pipeline_and_bind_group() {
    let mut ctx = RendererContext::new(Resolution { width: 800, height: 600 });
    let world = ctx.new_texture(&texture_desc(32, 32, 32, TextureDimension::D3, TextureFormat::R32Uint));
    let sprite = Sprite::new(&mut ctx, world, "cube", None).unwrap();
    assert!(ctx.contains_shader(sprite.compute_shader.unwrap()));
    assert!(ctx.contains_compute_pipeline(sprite.compute_pipeline));
    assert!(ctx.contains_bind_group(sprite.compute_bind_group));
    assert_eq!(ctx.bind_group_count(), 1);
    let failed = Sprite::new(&mut ctx, world, "cube (", Some("bad".to_string()));
    assert!(matches!(failed, Err(RendererContextError::CreateShaderModule(_))));
    ctx.destroy_texture(world);
    let stale = Sprite::new(&mut ctx, world, "cube", None);
    assert!(matches!(stale, Err(RendererContextError::StaleHandle)));
    assert_eq!(ctx.shader_count(), 1);
    assert_eq!(ctx.compute_pipeline_count(), 1);
}

#[test]
fn uniform_resources_own_their_buffers() {
    let mut ctx = RendererContext::new(Resolution { width: 800, height: 600 });
    let resource = BufferResource::new(&mut ctx, &[1, 2, 3, 4, 5, 6, 7, 8]);
    let globals = Globals::new(&mut ctx);
    assert_ne!(resource.get_buffer(), globals.get_buffer());
    assert_eq!(ctx.buffer_count(), 2);
    assert!(resource.update_buffer(&mut ctx, &[9; 8]));
    assert_eq!(ctx.buffer_data(resource.get_buffer()), Some(&[9u8; 8][..]));
    assert!(!resource.update_buffer(&mut ctx, &[9; 9]));
    assert!(globals.update_buffer(&mut ctx));
    assert_eq!(resource.binding_type(), BindingType::Buffer { ty: BufferBindingType::Uniform });
    assert_eq!(globals.binding_type(), BindingType::Buffer { ty: BufferBindingType::Uniform });
    ctx.destroy_buffer(globals.get_buffer());
    assert!(!globals.update_buffer(&mut ctx));
}
