//! The renderer facade: backend context, surface binding and pipeline
//! composed into one object driven by the external event loop.
//!
//! The asynchronous part of initialization - negotiating an adapter and a
//! device with the platform driver - suspends, so it runs in the shell;
//! the decisions about its outcomes (`adapter_step`, `device_step`) and
//! everything after it (`init`) are made here. Per frame, `render_frame`
//! acquires a texture, records exactly one complete pass through the
//! typestate session, submits it, and presents; the ghost submission log
//! witnesses that every submitted buffer is one complete, protocol-legal
//! frame and that a failed acquisition submits nothing.

use vstd::prelude::*;

use crate::config::Extent2d;
use crate::errors::{init_error_of_config, FrameError, InitError};
use crate::gpu;
use crate::pipeline::PipelineState;
use crate::protocol::{frame_trace, run, Cmd};
use crate::session::RenderCommandEncoder;
use crate::surface::{lemma_reconfigure_idempotent, SurfaceBinding};

verus! {

/// The connection to the graphics backend: instance, the physical adapter
/// negotiated for the bound surface, and the logical device and
/// command queue derived from that adapter.
pub struct BackendContext {
    pub instance: wgpu::Instance,
    pub adapter: wgpu::Adapter,
    pub device: wgpu::Device,
    pub queue: wgpu::Queue,
}

/// The outcome of adapter negotiation: no compatible adapter is fatal to
/// startup, as `AdapterUnavailable`.
pub fn adapter_step(adapter: Option<wgpu::Adapter>) -> (r: Result<wgpu::Adapter, InitError>)
    ensures
        adapter is Some ==> r == Ok::<wgpu::Adapter, InitError>(adapter.unwrap()),
        adapter is None ==> r == Err::<wgpu::Adapter, InitError>(InitError::AdapterUnavailable),
{
    match adapter {
        Some(a) => Ok(a),
        None => Err(InitError::AdapterUnavailable),
    }
}

/// The outcome of device negotiation: a driver that refuses to create a
/// logical device is fatal to startup, as `DeviceCreationFailed`.
pub fn device_step(device_queue: Option<(wgpu::Device, wgpu::Queue)>) -> (r: Result<
    (wgpu::Device, wgpu::Queue),
    InitError,
>)
    ensures
        device_queue is Some ==> r == Ok::<(wgpu::Device, wgpu::Queue), InitError>(
            device_queue.unwrap(),
        ),
        device_queue is None ==> r == Err::<(wgpu::Device, wgpu::Queue), InitError>(
            InitError::DeviceCreationFailed,
        ),
{
    match device_queue {
        Some(dq) => Ok(dq),
        None => Err(InitError::DeviceCreationFailed),
    }
}

/// The aggregate owner of context, surface binding and pipeline. It is
/// exclusively owned by the rendering thread and outlives every recording
/// session it creates.
pub struct Renderer {
    context: BackendContext,
    binding: SurfaceBinding,
    pipeline: PipelineState,
    frames: Ghost<Seq<Seq<Cmd>>>,
}

impl Renderer {
    /// The backend context: instance, adapter, device and queue.
    pub closed spec fn spec_context(self) -> BackendContext {
        self.context
    }

    /// The current surface binding.
    pub closed spec fn spec_binding(self) -> SurfaceBinding {
        self.binding
    }

    /// The pipeline state built at initialization.
    pub closed spec fn spec_pipeline(self) -> PipelineState {
        self.pipeline
    }

    /// The traces of the command buffers submitted so far, one per frame.
    pub closed spec fn frames(self) -> Seq<Seq<Cmd>> {
        self.frames@
    }

    /// The renderer's invariant: the configured extent has no zero
    /// dimension, the pipeline's output format equals the surface's
    /// negotiated format, and every submitted buffer is a complete,
    /// protocol-legal recording.
    pub open spec fn wf(self) -> bool {
        &&& self.spec_binding().wf()
        &&& self.spec_pipeline().spec_format() == self.spec_binding().spec_format()
        &&& forall|i: int| 0 <= i < self.frames().len() ==> run(#[trigger] self.frames()[i])
            == Some(false)
    }

    /// The effective configured extent.
    pub open spec fn spec_extent(self) -> Extent2d {
        self.spec_binding().spec_extent()
    }

    /// Compose context, surface binding and pipeline, in that order,
    /// failing with the first sub-component's error unchanged. All or
    /// nothing: on error no partially constructed renderer is returned; on
    /// success the extent is the clamped request, the pipeline's format is
    /// the binding's, and nothing has been submitted.
    pub fn init(
        instance: wgpu::Instance,
        surface: wgpu::Surface<'static>,
        adapter: wgpu::Adapter,
        device: wgpu::Device,
        queue: wgpu::Queue,
        width: u32,
        height: u32,
    ) -> (r: Result<Renderer, InitError>)
        ensures
            match r {
                Ok(renderer) => renderer.wf() && renderer.spec_extent()
                    == Extent2d::spec_clamped_to(
                    width,
                    height,
                    renderer.spec_binding().spec_max_dim(),
                ) && renderer.frames() == Seq::<Seq<Cmd>>::empty(),
                Err(e) => e == InitError::SurfaceConfigUnsupported,
            },
    {
        let binding = match SurfaceBinding::bind(surface, &adapter, &device, width, height) {
            Ok(b) => b,
            Err(e) => {
                return Err(init_error_of_config(e));
            },
        };
        let pipeline = PipelineState::build(&device, binding.format());
        Ok(
            Renderer {
                context: BackendContext { instance, adapter, device, queue },
                binding,
                pipeline,
                frames: Ghost(Seq::empty()),
            },
        )
    }

    /// Apply a resize: reconfigure the surface at the requested
    /// dimensions, clamped to the backend's minimum of 1x1 and to the
    /// device's maximum texture dimension. Only the extent changes: the
    /// surface handle, the negotiated format and present mode, the device
    /// limit, the backend context, the pipeline and the submission log
    /// are untouched, so the pipeline/format match survives every resize.
    pub fn update_size(&mut self, width: u32, height: u32)
        requires
            old(self).wf(),
        ensures
            final(self).wf(),
            final(self).spec_extent() == Extent2d::spec_clamped_to(
                width,
                height,
                old(self).spec_binding().spec_max_dim(),
            ),
            final(self).spec_binding().spec_max_dim() == old(
                self,
            ).spec_binding().spec_max_dim(),
            final(self).spec_binding().spec_surface() == old(self).spec_binding().spec_surface(),
            final(self).spec_binding().spec_format() == old(self).spec_binding().spec_format(),
            final(self).spec_binding().spec_present_mode() == old(
                self,
            ).spec_binding().spec_present_mode(),
            final(self).spec_context() == old(self).spec_context(),
            final(self).spec_pipeline() == old(self).spec_pipeline(),
            final(self).frames() == old(self).frames(),
    {
        self.binding.reconfigure(&self.context.device, width, height);
    }

    /// Render one frame: acquire the next presentable texture, record
    /// exactly one complete pass (clear, one draw, close) through the
    /// typestate session, submit it, and present. A failed acquisition
    /// short-circuits the whole call with the corresponding frame error:
    /// the queue receives zero command buffers for that call and the
    /// configuration is untouched. On success exactly one buffer, the
    /// complete frame trace, is submitted.
    pub fn render_frame(&mut self) -> (r: Result<(), FrameError>)
        requires
            old(self).wf(),
        ensures
            final(self).wf(),
            final(self).spec_binding() == old(self).spec_binding(),
            final(self).spec_context() == old(self).spec_context(),
            final(self).spec_pipeline() == old(self).spec_pipeline(),
            match r {
                Ok(_) => final(self).frames() == old(self).frames().push(frame_trace()),
                Err(_) => final(self).frames() == old(self).frames(),
            },
    {
        let texture = match gpu::acquire_texture(self.binding.surface()) {
            Ok(t) => t,
            Err(e) => {
                return Err(frame_error_of_surface(e));
            },
        };
        let view = gpu::texture_view(&texture);
        let encoder = gpu::create_encoder(&self.context.device);
        let session = RenderCommandEncoder::create(encoder);
        let mut pass = session.begin_pass(&view, self.pipeline.pipeline());
        pass.draw_triangle();
        let session = pass.end_pass();
        let submitted = session.submit(&self.context.queue);
        gpu::present_texture(texture);
        proof {
            assert(submitted@ =~= frame_trace());
        }
        self.frames = Ghost(self.frames@.push(submitted@));
        Ok(())
    }
}

/// Resizing is idempotent at the facade: a renderer that `update_size`
/// left at the clamped extent for (w, h), and that a second
/// `update_size(w, h)` then ran on, is exactly the renderer the first
/// call produced - the repeated call changes nothing. The premises are
/// precisely `update_size`'s postconditions for the two calls.
pub proof fn lemma_update_size_idempotent(once: Renderer, twice: Renderer, w: u32, h: u32)
    requires
        once.spec_extent() == Extent2d::spec_clamped_to(
            w,
            h,
            once.spec_binding().spec_max_dim(),
        ),
        twice.spec_extent() == Extent2d::spec_clamped_to(
            w,
            h,
            once.spec_binding().spec_max_dim(),
        ),
        twice.spec_binding().spec_max_dim() == once.spec_binding().spec_max_dim(),
        twice.spec_binding().spec_surface() == once.spec_binding().spec_surface(),
        twice.spec_binding().spec_format() == once.spec_binding().spec_format(),
        twice.spec_binding().spec_present_mode() == once.spec_binding().spec_present_mode(),
        twice.spec_context() == once.spec_context(),
        twice.spec_pipeline() == once.spec_pipeline(),
        twice.frames() == once.frames(),
    ensures
        twice == once,
{
    lemma_reconfigure_idempotent(once.spec_binding(), twice.spec_binding(), w, h);
}

/// Classify a frame-acquisition failure: a lost or outdated surface asks
/// the caller to reconfigure and retry, a timeout is transient, and
/// memory exhaustion is the unexpected backend failure `Other`.
pub fn frame_error_of_surface(e: wgpu::SurfaceError) -> (r: FrameError)
    ensures
        r == FrameError::SurfaceLost <==> e == wgpu::SurfaceError::Lost,
        r == FrameError::SurfaceOutdated <==> e == wgpu::SurfaceError::Outdated,
        r == FrameError::SurfaceTimeout <==> e == wgpu::SurfaceError::Timeout,
        r == FrameError::Other <==> e == wgpu::SurfaceError::OutOfMemory,
{
    match e {
        wgpu::SurfaceError::Timeout => FrameError::SurfaceTimeout,
        wgpu::SurfaceError::Outdated => FrameError::SurfaceOutdated,
        wgpu::SurfaceError::Lost => FrameError::SurfaceLost,
        wgpu::SurfaceError::OutOfMemory => FrameError::Other,
    }
}

} // verus!
