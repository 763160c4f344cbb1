//! Trusted boundary to the wgpu graphics backend.
//!
//! The backend's handles are opaque here: the library threads them
//! through and sequences the calls, and the verified modules state what
//! the sequencing guarantees. Every wrapper body is one backend call plus
//! argument marshalling; what a call returns depends on the platform
//! driver, so no wrapper promises anything about the handles themselves.

use std::borrow::Cow;
use vstd::prelude::*;

verus! {

#[verifier::external_type_specification]
#[verifier::external_body]
pub struct ExInstance(wgpu::Instance);

#[verifier::external_type_specification]
#[verifier::external_body]
pub struct ExAdapter(wgpu::Adapter);

#[verifier::external_type_specification]
#[verifier::external_body]
pub struct ExDevice(wgpu::Device);

#[verifier::external_type_specification]
#[verifier::external_body]
pub struct ExQueue(wgpu::Queue);

#[verifier::external_type_specification]
#[verifier::external_body]
pub struct ExSurface<'window>(wgpu::Surface<'window>);

#[verifier::external_type_specification]
#[verifier::external_body]
pub struct ExTextureFormat(wgpu::TextureFormat);

#[verifier::external_type_specification]
#[verifier::external_body]
pub struct ExPresentMode(wgpu::PresentMode);

#[verifier::external_type_specification]
#[verifier::external_body]
pub struct ExSurfaceTexture(wgpu::SurfaceTexture);

/// Transparent: `wgpu::SurfaceError` has four unit variants, so verified
/// code can match on an acquisition failure directly.
#[verifier::external_type_specification]
pub struct ExSurfaceError(wgpu::SurfaceError);

#[verifier::external_type_specification]
#[verifier::external_body]
pub struct ExTextureView(wgpu::TextureView);

#[verifier::external_type_specification]
#[verifier::external_body]
pub struct ExCommandEncoder(wgpu::CommandEncoder);

#[verifier::external_type_specification]
#[verifier::external_body]
pub struct ExRenderPass<'encoder>(wgpu::RenderPass<'encoder>);

#[verifier::external_type_specification]
#[verifier::external_body]
pub struct ExCommandBuffer(wgpu::CommandBuffer);

#[verifier::external_type_specification]
#[verifier::external_body]
pub struct ExShaderModule(wgpu::ShaderModule);

#[verifier::external_type_specification]
#[verifier::external_body]
pub struct ExPipelineLayout(wgpu::PipelineLayout);

#[verifier::external_type_specification]
#[verifier::external_body]
pub struct ExRenderPipeline(wgpu::RenderPipeline);

/// Relies on wgpu::Surface::get_default_config: the adapter's preferred
/// presentation configuration for this surface, `None` when the pairing
/// is unsupported. Only the negotiated format and present mode are kept;
/// which ones come back is the backend's choice.
#[verifier::external_body]
pub(crate) fn default_config(
    surface: &wgpu::Surface<'static>,
    adapter: &wgpu::Adapter,
    width: u32,
    height: u32,
) -> Option<(wgpu::TextureFormat, wgpu::PresentMode)> {
    surface.get_default_config(adapter, width, height).map(|c| (c.format, c.present_mode))
}

/// Relies on wgpu::Device::limits: the maximum 2D texture dimension this
/// device supports. The device rejects, as a fatal error, any surface
/// configuration exceeding it in either dimension. The value is the
/// device's own report; nothing else is promised of it.
#[verifier::external_body]
pub(crate) fn max_texture_dimension(device: &wgpu::Device) -> u32 {
    device.limits().max_texture_dimension_2d
}

/// Relies on wgpu::Surface::configure. Every configuration error is
/// fatal: the call panics on a zero dimension and on a dimension beyond
/// the device's maximum 2D texture size, so the contract demands
/// dimensions in [1, max_dim], where `max_dim` must be the value
/// `max_texture_dimension` read from this same device. It also panics on
/// a format or present mode the surface does not support - not statable
/// over these opaque handles, so the pair must be the one
/// `default_config` negotiated for this same surface, as at every call
/// site. The fields not negotiated here are wgpu's own defaults, the
/// ones `get_default_config` pairs with the format and present mode.
#[allow(unused_variables)]
#[verifier::external_body]
pub(crate) fn configure_surface(
    surface: &wgpu::Surface<'static>,
    device: &wgpu::Device,
    format: wgpu::TextureFormat,
    present_mode: wgpu::PresentMode,
    width: u32,
    height: u32,
    max_dim: u32,
)
    requires
        1 <= width <= max_dim,
        1 <= height <= max_dim,
{
    surface.configure(device, &wgpu::SurfaceConfiguration {
        usage: wgpu::TextureUsages::RENDER_ATTACHMENT,
        format,
        width,
        height,
        present_mode,
        desired_maximum_frame_latency: 2,
        alpha_mode: wgpu::CompositeAlphaMode::Auto,
        view_formats: Vec::new(),
    });
}

/// Relies on wgpu::Surface::get_current_texture: the next presentable
/// texture, or the backend's reason the surface cannot present now.
/// Which outcome comes back depends on the platform and timing.
#[verifier::external_body]
pub(crate) fn acquire_texture(surface: &wgpu::Surface<'static>) -> Result<
    wgpu::SurfaceTexture,
    wgpu::SurfaceError,
> {
    surface.get_current_texture()
}

/// Relies on wgpu::Texture::create_view with the default descriptor.
#[verifier::external_body]
pub(crate) fn texture_view(texture: &wgpu::SurfaceTexture) -> wgpu::TextureView {
    texture.texture.create_view(&wgpu::TextureViewDescriptor::default())
}

/// Relies on wgpu::Device::create_command_encoder: a fresh, empty
/// command-recording buffer.
#[verifier::external_body]
pub(crate) fn create_encoder(device: &wgpu::Device) -> wgpu::CommandEncoder {
    device.create_command_encoder(&wgpu::CommandEncoderDescriptor { label: None })
}

/// Relies on wgpu::CommandEncoder::begin_render_pass: opens one render
/// pass that clears the target view to the fixed background color and
/// stores the results, and on RenderPass::forget_lifetime, which trades
/// the borrow of the encoder for wgpu's runtime ordering checks.
#[verifier::external_body]
pub(crate) fn begin_cleared_pass(
    encoder: &mut wgpu::CommandEncoder,
    view: &wgpu::TextureView,
) -> wgpu::RenderPass<'static> {
    let ops = wgpu::Operations {
        load: wgpu::LoadOp::Clear(wgpu::Color::GREEN),
        store: wgpu::StoreOp::Store,
    };
    let attachment = wgpu::RenderPassColorAttachment { view, resolve_target: None, ops };
    encoder.begin_render_pass(&wgpu::RenderPassDescriptor {
        label: None,
        color_attachments: &[Some(attachment)],
        depth_stencil_attachment: None,
        timestamp_writes: None,
        occlusion_query_set: None,
    }).forget_lifetime()
}

/// Relies on wgpu::RenderPass::set_pipeline.
#[verifier::external_body]
pub(crate) fn set_pipeline(pass: &mut wgpu::RenderPass<'static>, pipeline: &wgpu::RenderPipeline) {
    pass.set_pipeline(pipeline);
}

/// Relies on wgpu::RenderPass::draw over the given vertex and instance
/// ranges. The backend computes each range's length by subtraction, so a
/// reversed range would underflow; the contract admits only ordered
/// ranges.
#[verifier::external_body]
pub(crate) fn draw_range(
    pass: &mut wgpu::RenderPass<'static>,
    vertex_start: u32,
    vertex_end: u32,
    instance_start: u32,
    instance_end: u32,
)
    requires
        vertex_start <= vertex_end,
        instance_start <= instance_end,
{
    pass.draw(vertex_start..vertex_end, instance_start..instance_end);
}

/// Relies on wgpu::CommandEncoder::finish: makes the recorded commands
/// final as one submittable buffer.
#[verifier::external_body]
pub(crate) fn finish_encoder(encoder: wgpu::CommandEncoder) -> wgpu::CommandBuffer {
    encoder.finish()
}

/// Relies on wgpu::Queue::submit, handing exactly one command buffer to
/// the queue for execution.
#[verifier::external_body]
pub(crate) fn submit_one(queue: &wgpu::Queue, buffer: wgpu::CommandBuffer) {
    let _ = queue.submit([buffer]);
}

/// Relies on wgpu::SurfaceTexture::present: schedules the rendered frame
/// for display and consumes the acquired texture.
#[verifier::external_body]
pub(crate) fn present_texture(texture: wgpu::SurfaceTexture) {
    texture.present();
}

/// Relies on wgpu::Device::create_shader_module, compiling the given WGSL
/// source. Invalid source panics through wgpu's default uncaptured-error
/// handler, so the contract admits only the library's fixed, known-valid
/// program.
#[verifier::external_body]
pub(crate) fn create_shader(device: &wgpu::Device, source: &str) -> wgpu::ShaderModule
    requires
        source@ == crate::pipeline::fixed_shader_source(),
{
    device.create_shader_module(wgpu::ShaderModuleDescriptor {
        label: None,
        source: wgpu::ShaderSource::Wgsl(Cow::Borrowed(source)),
    })
}

/// Relies on wgpu::Device::create_pipeline_layout with no bind groups and
/// no push constants: this core binds no geometry or uniform resources.
#[verifier::external_body]
pub(crate) fn create_layout(device: &wgpu::Device) -> wgpu::PipelineLayout {
    device.create_pipeline_layout(&wgpu::PipelineLayoutDescriptor {
        label: None,
        bind_group_layouts: &[],
        push_constant_ranges: &[],
    })
}

/// Relies on wgpu::Device::create_render_pipeline: one vertex stage and
/// one fragment stage from the given module, rendering to one color
/// target of exactly the given format.
#[verifier::external_body]
pub(crate) fn create_pipeline_raw(
    device: &wgpu::Device,
    layout: &wgpu::PipelineLayout,
    shader: &wgpu::ShaderModule,
    format: wgpu::TextureFormat,
) -> wgpu::RenderPipeline {
    let targets = [Some(format.into())];
    let vertex = wgpu::VertexState {
        module: shader, entry_point: "vs_main", buffers: &[],
        compilation_options: Default::default(),
    };
    let fragment = Some(wgpu::FragmentState {
        module: shader, entry_point: "fs_main",
        compilation_options: Default::default(), targets: &targets,
    });
    device.create_render_pipeline(&wgpu::RenderPipelineDescriptor {
        label: None, layout: Some(layout), vertex, fragment,
        primitive: Default::default(), depth_stencil: None,
        multisample: Default::default(), multiview: None, cache: None,
    })
}

} // verus!
