//! Surface extent model and the clamping policy.
//!
//! A zero-area surface is invalid for the backend and must never be
//! submitted, so requested dimensions are clamped to a minimum of 1x1
//! before being applied. The device likewise rejects, fatally, any
//! dimension beyond its maximum 2D texture size, so requests are also
//! clamped to that ceiling.

use vstd::prelude::*;

verus! {

/// The clamping policy floor on one requested dimension: a minimized
/// window may report 0, which is replaced by the backend's minimum of 1.
pub open spec fn spec_clamp(v: u32) -> u32 {
    if v == 0 {
        1u32
    } else {
        v
    }
}

/// The full clamping policy on one requested dimension: at least the
/// backend's minimum of 1, at most the device's maximum texture
/// dimension.
pub open spec fn spec_clamp_to(v: u32, max_dim: u32) -> u32
    recommends
        max_dim >= 1,
{
    if spec_clamp(v) > max_dim {
        max_dim
    } else {
        spec_clamp(v)
    }
}

/// Clamp a requested surface dimension to the backend's minimum of 1.
pub fn clamp_dim(v: u32) -> (r: u32)
    ensures
        r == spec_clamp(v),
        r >= 1,
{
    if v == 0 {
        1
    } else {
        v
    }
}

/// Clamp a requested surface dimension into the valid range: at least 1,
/// at most the device's maximum texture dimension.
pub fn clamp_dim_to(v: u32, max_dim: u32) -> (r: u32)
    requires
        max_dim >= 1,
    ensures
        r == spec_clamp_to(v, max_dim),
        1 <= r && r <= max_dim,
{
    let c = clamp_dim(v);
    if c > max_dim {
        max_dim
    } else {
        c
    }
}

/// Pixel dimensions of a configured surface.
#[derive(Clone, Copy, Debug, PartialEq, Eq, Structural)]
pub struct Extent2d {
    pub width: u32,
    pub height: u32,
}

impl Extent2d {
    /// A configured extent never contains a zero dimension.
    pub open spec fn wf(self) -> bool {
        self.width >= 1 && self.height >= 1
    }

    /// The extent that a request for `w` x `h` pixels configures on a
    /// device whose maximum texture dimension is `max_dim`.
    pub open spec fn spec_clamped_to(w: u32, h: u32, max_dim: u32) -> Extent2d
        recommends
            max_dim >= 1,
    {
        Extent2d { width: spec_clamp_to(w, max_dim), height: spec_clamp_to(h, max_dim) }
    }

    /// Clamp a requested extent into the valid range: at least 1x1, at
    /// most the device's maximum texture dimension in each direction.
    pub fn clamped_to(w: u32, h: u32, max_dim: u32) -> (r: Extent2d)
        requires
            max_dim >= 1,
        ensures
            r == Extent2d::spec_clamped_to(w, h, max_dim),
            r.wf(),
            r.width <= max_dim,
            r.height <= max_dim,
    {
        Extent2d { width: clamp_dim_to(w, max_dim), height: clamp_dim_to(h, max_dim) }
    }
}

/// Clamping an already-clamped extent changes nothing: reapplying the same
/// requested dimensions, against the same device limit, leaves the
/// configuration identical.
pub proof fn lemma_clamp_idempotent(w: u32, h: u32, max_dim: u32)
    requires
        max_dim >= 1,
    ensures
        Extent2d::spec_clamped_to(
            Extent2d::spec_clamped_to(w, h, max_dim).width,
            Extent2d::spec_clamped_to(w, h, max_dim).height,
            max_dim,
        ) == Extent2d::spec_clamped_to(w, h, max_dim),
{
}

/// A clamped extent never contains a zero dimension, for every request.
pub proof fn lemma_clamped_never_zero(w: u32, h: u32, max_dim: u32)
    requires
        max_dim >= 1,
    ensures
        Extent2d::spec_clamped_to(w, h, max_dim).wf(),
{
}

/// Below the device limit the ceiling is invisible: for requests whose
/// floor-clamped dimensions fit the limit, the effective configuration is
/// exactly max(value, 1) in each dimension.
pub proof fn lemma_clamped_agrees_below_limit(w: u32, h: u32, max_dim: u32)
    requires
        spec_clamp(w) <= max_dim,
        spec_clamp(h) <= max_dim,
    ensures
        Extent2d::spec_clamped_to(w, h, max_dim) == (Extent2d {
            width: spec_clamp(w),
            height: spec_clamp(h),
        }),
{
}

} // verus!
