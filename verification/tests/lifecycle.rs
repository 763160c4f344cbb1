use iftch2d::config::{clamp_dim, clamp_dim_to, Extent2d};
use iftch2d::errors::{init_error_of_config, ConfigError, FrameError, InitError};
use iftch2d::renderer::{adapter_step, device_step, frame_error_of_surface};
use iftch2d::surface::config_step;

const LIMIT: u32 = 8192;

#[test]
fn clamp_replaces_zero() {
    assert_eq!(clamp_dim(0), 1);
    assert_eq!(clamp_dim(1), 1);
    assert_eq!(clamp_dim(800), 800);
    assert_eq!(clamp_dim(u32::MAX), u32::MAX);
}

#[test]
fn clamp_respects_device_limit() {
    assert_eq!(clamp_dim_to(0, LIMIT), 1);
    assert_eq!(clamp_dim_to(800, LIMIT), 800);
    assert_eq!(clamp_dim_to(LIMIT, LIMIT), LIMIT);
    assert_eq!(clamp_dim_to(100_000, LIMIT), LIMIT);
    assert_eq!(clamp_dim_to(u32::MAX, LIMIT), LIMIT);
    assert_eq!(clamp_dim_to(0, 1), 1);
    assert_eq!(clamp_dim_to(5, 3), 3);
}

#[test]
fn zero_extent_clamps_to_one_by_one() {
    let e = Extent2d::clamped_to(0, 0, LIMIT);
    assert_eq!(e, Extent2d { width: 1, height: 1 });
    let e = Extent2d::clamped_to(0, 600, LIMIT);
    assert_eq!(e, Extent2d { width: 1, height: 600 });
    let e = Extent2d::clamped_to(800, 0, LIMIT);
    assert_eq!(e, Extent2d { width: 800, height: 1 });
}

#[test]
fn nonzero_extent_kept_exactly() {
    let e = Extent2d::clamped_to(800, 600, LIMIT);
    assert_eq!(e, Extent2d { width: 800, height: 600 });
}

#[test]
fn oversized_extent_clamps_to_device_limit() {
    let e = Extent2d::clamped_to(100_000, 100_000, LIMIT);
    assert_eq!(e, Extent2d { width: LIMIT, height: LIMIT });
    let e = Extent2d::clamped_to(100_000, 600, LIMIT);
    assert_eq!(e, Extent2d { width: LIMIT, height: 600 });
}

#[test]
fn reclamping_same_request_is_identical() {
    let once = Extent2d::clamped_to(0, 0, LIMIT);
    let twice = Extent2d::clamped_to(once.width, once.height, LIMIT);
    assert_eq!(twice, once);
    let once = Extent2d::clamped_to(800, 600, LIMIT);
    let twice = Extent2d::clamped_to(once.width, once.height, LIMIT);
    assert_eq!(twice, once);
    let once = Extent2d::clamped_to(100_000, 100_000, LIMIT);
    let twice = Extent2d::clamped_to(once.width, once.height, LIMIT);
    assert_eq!(twice, once);
}

#[test]
fn resize_to_zero_then_back_restores_configuration() {
    // A minimized window reports 0x0: the effective configuration becomes
    // 1x1, and a later resize to the real dimensions restores it exactly.
    let initial = Extent2d::clamped_to(800, 600, LIMIT);
    assert_eq!(initial, Extent2d { width: 800, height: 600 });
    let minimized = Extent2d::clamped_to(0, 0, LIMIT);
    assert_eq!(minimized, Extent2d { width: 1, height: 1 });
    let restored = Extent2d::clamped_to(800, 600, LIMIT);
    assert_eq!(restored, initial);
}

#[test]
fn config_failure_maps_to_surface_config_unsupported() {
    assert_eq!(
        init_error_of_config(ConfigError::Unsupported),
        InitError::SurfaceConfigUnsupported
    );
}

#[test]
fn missing_adapter_is_fatal() {
    let r = adapter_step(None);
    assert!(matches!(r, Err(InitError::AdapterUnavailable)));
}

#[test]
fn refused_device_is_fatal() {
    let r = device_step(None);
    assert!(matches!(r, Err(InitError::DeviceCreationFailed)));
}

#[test]
fn missing_default_config_is_unsupported() {
    let r = config_step(None);
    assert!(matches!(r, Err(ConfigError::Unsupported)));
}

#[test]
fn offered_config_carried_through_unchanged() {
    let offered = (wgpu::TextureFormat::Rgba8Unorm, wgpu::PresentMode::Fifo);
    let r = config_step(Some(offered));
    assert_eq!(r, Ok(offered));
}

#[test]
fn acquisition_errors_classified() {
    assert_eq!(
        frame_error_of_surface(wgpu::SurfaceError::Timeout),
        FrameError::SurfaceTimeout
    );
    assert_eq!(
        frame_error_of_surface(wgpu::SurfaceError::Outdated),
        FrameError::SurfaceOutdated
    );
    assert_eq!(
        frame_error_of_surface(wgpu::SurfaceError::Lost),
        FrameError::SurfaceLost
    );
    assert_eq!(
        frame_error_of_surface(wgpu::SurfaceError::OutOfMemory),
        FrameError::Other
    );
}

#[test]
fn only_memory_exhaustion_is_other() {
    for e in [
        wgpu::SurfaceError::Timeout,
        wgpu::SurfaceError::Outdated,
        wgpu::SurfaceError::Lost,
    ] {
        assert_ne!(frame_error_of_surface(e), FrameError::Other);
    }
}
