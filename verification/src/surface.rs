//! The drawable surface and its presentation configuration.
//!
//! A binding owns the surface handle together with the configuration
//! applied to it: the negotiated pixel format and present mode, the
//! clamped pixel extent, and the device's maximum texture dimension read
//! at bind time. The extent is never zero and never beyond that maximum
//! in either dimension.

use vstd::prelude::*;

use crate::config::Extent2d;
use crate::errors::ConfigError;
use crate::gpu;

verus! {

/// A drawable surface with its current presentation configuration.
pub struct SurfaceBinding {
    surface: wgpu::Surface<'static>,
    format: wgpu::TextureFormat,
    present_mode: wgpu::PresentMode,
    extent: Extent2d,
    max_dim: u32,
}

/// The outcome of presentation-configuration negotiation: a pairing that
/// offers no configuration is `Unsupported`; an offered configuration is
/// carried through unchanged.
pub fn config_step(config: Option<(wgpu::TextureFormat, wgpu::PresentMode)>) -> (r: Result<
    (wgpu::TextureFormat, wgpu::PresentMode),
    ConfigError,
>)
    ensures
        config is Some ==> r == Ok::<(wgpu::TextureFormat, wgpu::PresentMode), ConfigError>(
            config.unwrap(),
        ),
        config is None ==> r == Err::<(wgpu::TextureFormat, wgpu::PresentMode), ConfigError>(
            ConfigError::Unsupported,
        ),
{
    match config {
        Some(fp) => Ok(fp),
        None => Err(ConfigError::Unsupported),
    }
}

impl SurfaceBinding {
    /// The surface handle this binding owns.
    pub closed spec fn spec_surface(self) -> wgpu::Surface<'static> {
        self.surface
    }

    /// The pixel format the binding was configured with.
    pub closed spec fn spec_format(self) -> wgpu::TextureFormat {
        self.format
    }

    /// The present mode the binding was configured with.
    pub closed spec fn spec_present_mode(self) -> wgpu::PresentMode {
        self.present_mode
    }

    /// The configured pixel extent.
    pub closed spec fn spec_extent(self) -> Extent2d {
        self.extent
    }

    /// The device's maximum 2D texture dimension, read when the binding
    /// was made.
    pub closed spec fn spec_max_dim(self) -> u32 {
        self.max_dim
    }

    /// The applied configuration never has a zero dimension, and never
    /// one beyond the device's maximum texture dimension.
    pub open spec fn wf(self) -> bool {
        &&& self.spec_max_dim() >= 1
        &&& self.spec_extent().wf()
        &&& self.spec_extent().width <= self.spec_max_dim()
        &&& self.spec_extent().height <= self.spec_max_dim()
    }

    /// Bind a surface: read the device's texture-dimension limit, select
    /// the backend's default presentation configuration for this
    /// adapter/surface pairing, and apply it at the requested dimensions,
    /// clamped into [1, limit]. Fails with `Unsupported` exactly when the
    /// pairing offers no valid configuration - a device limit of zero,
    /// under which no dimension is configurable, counts as such; on
    /// success the binding holds the argument surface and the clamp of
    /// the request against the stored limit.
    pub fn bind(
        surface: wgpu::Surface<'static>,
        adapter: &wgpu::Adapter,
        device: &wgpu::Device,
        width: u32,
        height: u32,
    ) -> (r: Result<SurfaceBinding, ConfigError>)
        ensures
            match r {
                Ok(b) => b.spec_surface() == surface && b.spec_extent()
                    == Extent2d::spec_clamped_to(width, height, b.spec_max_dim()) && b.wf(),
                Err(e) => e == ConfigError::Unsupported,
            },
    {
        let max_dim = gpu::max_texture_dimension(device);
        if max_dim == 0 {
            return Err(ConfigError::Unsupported);
        }
        let extent = Extent2d::clamped_to(width, height, max_dim);
        let (format, present_mode) = match config_step(
            gpu::default_config(&surface, adapter, extent.width, extent.height),
        ) {
            Ok(fp) => fp,
            Err(e) => {
                return Err(e);
            },
        };
        gpu::configure_surface(
            &surface,
            device,
            format,
            present_mode,
            extent.width,
            extent.height,
            max_dim,
        );
        Ok(SurfaceBinding { surface, format, present_mode, extent, max_dim })
    }

    /// Reapply the configuration at new requested dimensions, clamped
    /// into [1, limit] against the limit stored at bind time. Everything
    /// negotiated at bind time - surface, format, present mode, limit -
    /// is kept; only the extent changes, and it changes to the clamp of
    /// the request whether or not the request equals the current extent.
    /// The device must be the one the binding was bound with.
    pub fn reconfigure(&mut self, device: &wgpu::Device, width: u32, height: u32)
        requires
            old(self).wf(),
        ensures
            final(self).spec_extent() == Extent2d::spec_clamped_to(
                width,
                height,
                old(self).spec_max_dim(),
            ),
            final(self).wf(),
            final(self).spec_surface() == old(self).spec_surface(),
            final(self).spec_format() == old(self).spec_format(),
            final(self).spec_present_mode() == old(self).spec_present_mode(),
            final(self).spec_max_dim() == old(self).spec_max_dim(),
    {
        let extent = Extent2d::clamped_to(width, height, self.max_dim);
        self.extent = extent;
        gpu::configure_surface(
            &self.surface,
            device,
            self.format,
            self.present_mode,
            extent.width,
            extent.height,
            self.max_dim,
        );
    }

    /// The configured extent, as applied after clamping.
    pub fn extent(&self) -> (e: Extent2d)
        ensures
            e == self.spec_extent(),
    {
        self.extent
    }

    /// The negotiated format, for building a pipeline whose output format
    /// matches this binding.
    pub fn format(&self) -> (f: wgpu::TextureFormat)
        ensures
            f == self.spec_format(),
    {
        self.format
    }

    /// The surface handle, for acquiring the next presentable texture.
    pub(crate) fn surface(&self) -> (s: &wgpu::Surface<'static>)
        ensures
            *s == self.spec_surface(),
    {
        &self.surface
    }
}

/// Reconfiguring is idempotent: a binding reconfigured with (w, h), and
/// then reconfigured with the identical (w, h) again, is exactly the
/// binding the first call produced - the configuration is unchanged by
/// the second call. The premises are precisely `reconfigure`'s
/// postconditions for the two calls.
pub proof fn lemma_reconfigure_idempotent(once: SurfaceBinding, twice: SurfaceBinding, w: u32, h: u32)
    requires
        once.spec_extent() == Extent2d::spec_clamped_to(w, h, once.spec_max_dim()),
        twice.spec_extent() == Extent2d::spec_clamped_to(w, h, once.spec_max_dim()),
        twice.spec_surface() == once.spec_surface(),
        twice.spec_format() == once.spec_format(),
        twice.spec_present_mode() == once.spec_present_mode(),
        twice.spec_max_dim() == once.spec_max_dim(),
    ensures
        twice == once,
{
}

} // verus!
