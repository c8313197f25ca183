//! The frame recorder: one acquire → record → submit cycle.
//!
//! A frame is opened once the swapchain image was acquired. Passes are
//! validated against the context when they begin, filled with draws or
//! dispatches, and handed back to the frame in the order they end. Committing
//! the frame consumes it and yields the recorded passes, in order, for the
//! device to encode, submit and present.
use vstd::prelude::*;

use std::ops::Range;

use crate::context::{pass_layouts_match, RendererContext, RendererContextError, SurfaceError};
use crate::handle::{BindGroupHandle, ComputePipelineHandle, RenderPipelineHandle};
use crate::resource::ResourceKind;

verus! {

/// A colour with 8-bit channels.
#[derive(Clone, Copy, PartialEq, Eq, Structural, Debug)]
pub struct Color {
    pub r: u8,
    pub g: u8,
    pub b: u8,
    pub a: u8,
}

/// What a render pass does with the colour target when it begins.
#[derive(Clone, Copy, PartialEq, Eq, Structural, Debug)]
pub enum LoadOp {
    /// Clear the target to a colour.
    Clear(Color),
    /// Keep what earlier passes drew.
    Load,
}

/// A compute pass to begin: its pipeline and bind group.
#[derive(Clone, Copy, PartialEq, Eq, Structural, Debug)]
pub struct ComputePassDesc {
    pub bind_group: BindGroupHandle,
    pub pipeline: ComputePipelineHandle,
}

/// A render pass to begin: its pipeline, bind group and load operation.
#[derive(Clone, Copy, PartialEq, Eq, Structural, Debug)]
pub struct RenderPassDesc {
    pub bind_group: BindGroupHandle,
    pub pipeline: RenderPipelineHandle,
    pub load_op: LoadOp,
}

/// One draw: a range of vertices and a range of instances.
pub struct DrawCall {
    pub vertices: Range<u32>,
    pub instances: Range<u32>,
}

/// One dispatch: workgroup counts along x, y and z.
#[derive(Clone, Copy, PartialEq, Eq, Structural, Debug)]
pub struct Dispatch {
    pub x: u32,
    pub y: u32,
    pub z: u32,
}

/// A render pass being recorded.
pub struct RenderPass {
    desc: RenderPassDesc,
    draws: Vec<DrawCall>,
}

/// A compute pass being recorded.
pub struct ComputePass {
    desc: ComputePassDesc,
    dispatches: Vec<Dispatch>,
}

/// A finished pass, as the frame keeps it.
pub enum PassRecord {
    Render(RenderPass),
    Compute(ComputePass),
}

/// How to react when the swapchain image could not be acquired.
#[derive(Clone, Copy, PartialEq, Eq, Structural, Debug)]
pub enum SurfaceRecovery {
    /// Reconfigure the surface and try again next frame.
    Reconfigure,
    /// Skip this frame; the next one is expected to succeed.
    Skip,
    /// The device cannot go on.
    Exit,
}

/// What to do for each acquisition failure: a lost surface is reconfigured,
/// running out of memory is fatal, anything else skips one frame.
pub open spec fn recovery_for(error: SurfaceError) -> SurfaceRecovery {
    match error {
        SurfaceError::Lost => SurfaceRecovery::Reconfigure,
        SurfaceError::OutOfMemory => SurfaceRecovery::Exit,
        _ => SurfaceRecovery::Skip,
    }
}

/// How to react to a failed acquisition of the swapchain image.
pub fn surface_recovery(error: SurfaceError) -> (r: SurfaceRecovery)
    ensures
        r == recovery_for(error),
{
    match error {
        SurfaceError::Lost => SurfaceRecovery::Reconfigure,
        SurfaceError::OutOfMemory => SurfaceRecovery::Exit,
        _ => SurfaceRecovery::Skip,
    }
}

impl RenderPass {
    /// The pipeline, bind group and load operation the pass began with.
    pub closed spec fn spec_desc(&self) -> RenderPassDesc {
        self.desc
    }

    /// The draws recorded so far, as (vertices, instances) range bounds.
    pub closed spec fn spec_draws(&self) -> Seq<(u32, u32, u32, u32)> {
        self.draws@.map_values(
            |d: DrawCall| (d.vertices.start, d.vertices.end, d.instances.start, d.instances.end),
        )
    }

    /// Records one draw.
    pub fn draw(&mut self, vertices: Range<u32>, instances: Range<u32>)
        ensures
            final(self).spec_desc() == old(self).spec_desc(),
            final(self).spec_draws() == old(self).spec_draws().push(
                (vertices.start, vertices.end, instances.start, instances.end),
            ),
    {
        let ghost before = self.draws@;
        self.draws.push(DrawCall { vertices, instances });
        proof {
            assert(self.draws@.map_values(
                |d: DrawCall| (d.vertices.start, d.vertices.end, d.instances.start, d.instances.end),
            ) =~= before.map_values(
                |d: DrawCall| (d.vertices.start, d.vertices.end, d.instances.start, d.instances.end),
            ).push((vertices.start, vertices.end, instances.start, instances.end)));
        }
    }

    /// The pipeline, bind group and load operation the pass began with.
    pub fn desc(&self) -> (r: RenderPassDesc)
        ensures
            r == self.spec_desc(),
    {
        self.desc
    }

    /// The draws recorded so far.
    pub fn draws(&self) -> (r: &[DrawCall])
        ensures
            r@.map_values(
                |d: DrawCall| (d.vertices.start, d.vertices.end, d.instances.start, d.instances.end),
            ) == self.spec_draws(),
    {
        self.draws.as_slice()
    }
}

impl ComputePass {
    /// The pipeline and bind group the pass began with.
    pub closed spec fn spec_desc(&self) -> ComputePassDesc {
        self.desc
    }

    /// The dispatches recorded so far.
    pub closed spec fn spec_dispatches(&self) -> Seq<Dispatch> {
        self.dispatches@
    }

    /// Records one dispatch of `x` × `y` × `z` workgroups.
    pub fn dispatch(&mut self, x: u32, y: u32, z: u32)
        ensures
            final(self).spec_desc() == old(self).spec_desc(),
            final(self).spec_dispatches() == old(self).spec_dispatches().push(Dispatch { x, y, z }),
    {
        self.dispatches.push(Dispatch { x, y, z });
    }

    /// The pipeline and bind group the pass began with.
    pub fn desc(&self) -> (r: ComputePassDesc)
        ensures
            r == self.spec_desc(),
    {
        self.desc
    }

    /// The dispatches recorded so far.
    pub fn dispatches(&self) -> (r: &[Dispatch])
        ensures
            r@ == self.spec_dispatches(),
    {
        self.dispatches.as_slice()
    }
}

/// The frame being recorded; it borrows the context, so no resource can be
/// created, resized or destroyed while it is open.
pub struct Frame<'a> {
    renderer: &'a RendererContext,
    passes: Vec<PassRecord>,
}

impl<'a> Frame<'a> {
    /// The context the frame records against.
    pub closed spec fn context(&self) -> RendererContext {
        *self.renderer
    }

    /// The passes ended so far, in order.
    pub closed spec fn recorded(&self) -> Seq<PassRecord> {
        self.passes@
    }

    /// Begins a render pass on a live pipeline and bind group, after
    /// checking that they share a layout.
    pub fn begin_render_pass(&self, desc: &RenderPassDesc) -> (r: Result<RenderPass, RendererContextError>)
        requires
            self.context().wf(),
            self.context().live(ResourceKind::RenderPipeline, desc.pipeline.key()),
            self.context().live(ResourceKind::BindGroup, desc.bind_group.key()),
        ensures
            r is Ok <==> pass_layouts_match(
                self.context(),
                ResourceKind::RenderPipeline,
                desc.pipeline.key(),
                desc.bind_group.key(),
            ),
            r is Err ==> r == Err::<RenderPass, RendererContextError>(RendererContextError::LayoutMismatch),
            r is Ok ==> r->Ok_0.spec_desc() == *desc && r->Ok_0.spec_draws().len() == 0,
    {
        match self.renderer.check_pass(
            ResourceKind::RenderPipeline,
            desc.pipeline.raw(),
            desc.bind_group.raw(),
        ) {
            Ok(()) => Ok(RenderPass { desc: *desc, draws: Vec::new() }),
            Err(e) => Err(e),
        }
    }

    /// Begins a compute pass on a live pipeline and bind group, after
    /// checking that they share a layout.
    pub fn begin_compute_pass(&self, desc: &ComputePassDesc) -> (r: Result<ComputePass, RendererContextError>)
        requires
            self.context().wf(),
            self.context().live(ResourceKind::ComputePipeline, desc.pipeline.key()),
            self.context().live(ResourceKind::BindGroup, desc.bind_group.key()),
        ensures
            r is Ok <==> pass_layouts_match(
                self.context(),
                ResourceKind::ComputePipeline,
                desc.pipeline.key(),
                desc.bind_group.key(),
            ),
            r is Err ==> r == Err::<ComputePass, RendererContextError>(RendererContextError::LayoutMismatch),
            r is Ok ==> r->Ok_0.spec_desc() == *desc && r->Ok_0.spec_dispatches().len() == 0,
    {
        match self.renderer.check_pass(
            ResourceKind::ComputePipeline,
            desc.pipeline.raw(),
            desc.bind_group.raw(),
        ) {
            Ok(()) => Ok(ComputePass { desc: *desc, dispatches: Vec::new() }),
            Err(e) => Err(e),
        }
    }

    /// Closes a render pass and appends it to the frame.
    pub fn end_render_pass(&mut self, pass: RenderPass)
        ensures
            final(self).context() == old(self).context(),
            final(self).recorded() == old(self).recorded().push(PassRecord::Render(pass)),
    {
        self.passes.push(PassRecord::Render(pass));
    }

    /// Closes a compute pass and appends it to the frame.
    pub fn end_compute_pass(&mut self, pass: ComputePass)
        ensures
            final(self).context() == old(self).context(),
            final(self).recorded() == old(self).recorded().push(PassRecord::Compute(pass)),
    {
        self.passes.push(PassRecord::Compute(pass));
    }
}

impl RendererContext {
    /// Opens a frame if the swapchain image was acquired. A transient
    /// acquisition failure gives no frame this tick (see
    /// [`surface_recovery`] for how to recover); running out of memory is
    /// fatal and is returned as an error.
    pub fn begin_frame(&self, acquired: Result<(), SurfaceError>) -> (r: Result<
        Option<Frame<'_>>,
        RendererContextError,
    >)
        ensures
            r is Err <==> acquired == Err::<(), SurfaceError>(SurfaceError::OutOfMemory),
            r is Err ==> r->Err_0 == RendererContextError::SurfaceError(SurfaceError::OutOfMemory),
            r matches Ok(Some(_)) <==> acquired is Ok,
            r matches Ok(Some(f)) ==> f.context() == *self && f.recorded().len() == 0,
    {
        match acquired {
            Ok(()) => Ok(Some(Frame { renderer: self, passes: Vec::new() })),
            Err(SurfaceError::OutOfMemory) => Err(
                RendererContextError::SurfaceError(SurfaceError::OutOfMemory),
            ),
            Err(_) => Ok(None),
        }
    }

    /// Closes a frame and returns its passes, in the order they ended, for
    /// the device to submit before presenting.
    pub fn commit_frame(&self, frame: Frame<'_>) -> (r: Vec<PassRecord>)
        requires
            frame.context() == *self,
        ensures
            r@ == frame.recorded(),
    {
        frame.passes
    }
}

} // verus!
