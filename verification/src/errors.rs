//! Error taxonomy of the rendering core.
//!
//! Initialization errors are fatal to startup and never retried; frame
//! errors either ask the caller to reconfigure the surface and retry, or
//! (for `Other`) to stop rendering altogether.

use vstd::prelude::*;

verus! {

/// Failure during renderer initialization. All variants are fatal to
/// startup: the shell must abort application launch.
#[derive(Clone, Copy, Debug, PartialEq, Eq, Structural)]
pub enum InitError {
    /// No physical adapter compatible with the target surface exists.
    AdapterUnavailable,
    /// The driver refused to create a logical device for the adapter.
    DeviceCreationFailed,
    /// The adapter/surface pairing admits no valid presentation
    /// configuration.
    SurfaceConfigUnsupported,
}

/// Failure while binding or reconfiguring the drawable surface.
#[derive(Clone, Copy, Debug, PartialEq, Eq, Structural)]
pub enum ConfigError {
    /// The adapter/surface pairing cannot produce any valid configuration.
    Unsupported,
}

/// Failure while rendering one frame.
#[derive(Clone, Copy, Debug, PartialEq, Eq, Structural)]
pub enum FrameError {
    /// The surface was lost and needs reconfiguration; reapply the last
    /// known dimensions and retry the next frame.
    SurfaceLost,
    /// The surface no longer matches its configuration; same remedy as
    /// `SurfaceLost`.
    SurfaceOutdated,
    /// Frame acquisition timed out; transient, safe to retry next frame
    /// without reconfiguration.
    SurfaceTimeout,
    /// Unexpected backend failure; propagate and stop rendering.
    Other,
}

/// An initialization error carries the first failing sub-component's
/// error unchanged; a surface-binding failure maps to this variant.
pub fn init_error_of_config(e: ConfigError) -> (r: InitError)
    ensures
        r == InitError::SurfaceConfigUnsupported,
{
    match e {
        ConfigError::Unsupported => InitError::SurfaceConfigUnsupported,
    }
}

} // verus!
