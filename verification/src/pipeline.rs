//! The draw pipeline and its fixed shader program.
//!
//! The shader source is a static compile-time constant, not
//! user-configurable: a vertex stage synthesizing screen-space triangle
//! geometry from the vertex index (no geometry buffers are bound), and a
//! fragment stage producing the fill color. The pipeline's output format
//! must equal the surface's negotiated format; construction records the
//! format it was built for so the renderer can keep the two equal.

use vstd::prelude::*;

use crate::gpu;

verus! {

/// The fixed, statically bundled shader program: the one source text this
/// core ever hands to the backend's shader compiler.
pub open spec fn fixed_shader_source() -> Seq<char> {
    "@vertex
fn vs_main(@builtin(vertex_index) idx: u32) -> @builtin(position) vec4<f32> {
    let x = f32(i32(idx) - 1);
    let y = f32(i32(idx & 1u) * 2 - 1);
    return vec4<f32>(x, y, 0f, 1f);
}

@fragment
fn fs_main() -> @location(0) vec4<f32> {
    return vec4<f32>(1f, 0f, 0f, 1f);
}
"@
}

/// The fixed shader program, as source text.
fn shader_source() -> (r: &'static str)
    ensures
        r@ == fixed_shader_source(),
{
    "@vertex
fn vs_main(@builtin(vertex_index) idx: u32) -> @builtin(position) vec4<f32> {
    let x = f32(i32(idx) - 1);
    let y = f32(i32(idx & 1u) * 2 - 1);
    return vec4<f32>(x, y, 0f, 1f);
}

@fragment
fn fs_main() -> @location(0) vec4<f32> {
    return vec4<f32>(1f, 0f, 0f, 1f);
}
"
}

/// A compiled render pipeline together with the output format it renders
/// to.
pub struct PipelineState {
    pipeline: wgpu::RenderPipeline,
    format: wgpu::TextureFormat,
}

impl PipelineState {
    /// The output format the pipeline was built for.
    pub closed spec fn spec_format(self) -> wgpu::TextureFormat {
        self.format
    }

    /// The compiled pipeline object.
    pub closed spec fn spec_pipeline(self) -> wgpu::RenderPipeline {
        self.pipeline
    }

    /// Compile the fixed shader and build the draw pipeline rendering to
    /// exactly the given format. The format must be the surface's
    /// negotiated format, or draws fail backend validation; the result
    /// records the format so that requirement can be stated.
    pub fn build(device: &wgpu::Device, format: wgpu::TextureFormat) -> (r: PipelineState)
        ensures
            r.spec_format() == format,
    {
        let shader = gpu::create_shader(device, shader_source());
        let layout = gpu::create_layout(device);
        let pipeline = gpu::create_pipeline_raw(device, &layout, &shader, format);
        PipelineState { pipeline, format }
    }

    /// The pipeline handle, for binding when a pass is opened.
    pub(crate) fn pipeline(&self) -> (p: &wgpu::RenderPipeline)
        ensures
            *p == self.spec_pipeline(),
    {
        &self.pipeline
    }
}

} // verus!
