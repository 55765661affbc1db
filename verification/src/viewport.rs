//! The coordinate resolver: translating a window-space position into the
//! local space of a camera's viewport.
//!
//! Window space has its origin at the top-left corner with Y growing
//! downward; viewport space has its origin at the bottom-left corner with Y
//! growing upward. Resolving a position therefore mirrors the Y axis against
//! the physical height of the camera's render target, checks the mirrored
//! position against the viewport rectangle `[min, max)`, and translates the
//! position by the rectangle's minimum corner. Positions outside the
//! rectangle resolve to `None`, never to a clamped value.

use vstd::prelude::*;

verus! {

/// A two-dimensional point, offset or size in whole pixels.
#[derive(Clone, Copy, PartialEq, Eq, Structural, Debug)]
pub struct Vec2 {
    pub x: i32,
    pub y: i32,
}

/// The surface a camera renders to: a window, or an off-screen image.
#[derive(Clone, Copy, PartialEq, Eq, Structural, Debug)]
pub enum RenderTargetRef {
    /// A window, by its window id.
    Window(u64),
    /// An off-screen image, by its handle id.
    Image(u64),
}

/// A camera's viewport rectangle in physical pixels: the half-open box
/// `[min, max)`, measured in mirrored (Y-up) target coordinates.
#[derive(Clone, Copy, PartialEq, Eq, Structural, Debug)]
pub struct ViewportRect {
    pub min: Vec2,
    pub max: Vec2,
}

impl ViewportRect {
    /// A rectangle is well formed when both corners are non-negative and
    /// ordered componentwise.
    pub open spec fn wf(self) -> bool {
        0 <= self.min.x <= self.max.x && 0 <= self.min.y <= self.max.y
    }

    /// Height of the rectangle in physical pixels.
    pub open spec fn height(self) -> int {
        self.max.y - self.min.y
    }
}

/// What the resolver reads of a camera, as plain values.
///
/// The host engine queries its camera once per frame and fills this in; a
/// field is `None` when the camera cannot answer the query (for example while
/// its render target is not ready). A camera with `viewport == None` draws to
/// its full physical target.
#[derive(Clone, Copy, PartialEq, Eq, Debug)]
pub struct CameraGeometry {
    /// Full size of the render target in physical pixels.
    pub physical_target_size: Option<Vec2>,
    /// The explicit viewport rectangle, when one is configured.
    pub viewport: Option<ViewportRect>,
    /// Size of the viewport in logical pixels.
    pub logical_viewport_size: Option<Vec2>,
    /// Where the camera renders.
    pub target: RenderTargetRef,
}

impl CameraGeometry {
    /// All sizes non-negative and the viewport rectangle well formed.
    pub open spec fn wf(self) -> bool {
        &&& self.physical_target_size matches Some(s) ==> 0 <= s.x && 0 <= s.y
        &&& self.viewport matches Some(r) ==> r.wf()
        &&& self.logical_viewport_size matches Some(s) ==> 0 <= s.x && 0 <= s.y
    }
}

/// Mirror a window-space Y coordinate against a target of the given height,
/// clamping at zero: window-space Y grows downward, viewport-space Y grows
/// upward.
pub open spec fn mirror_y(height: int, y: int) -> int {
    if height - y >= 0 {
        height - y
    } else {
        0
    }
}

/// Whether the point `(x, my)`, already Y-mirrored, lies inside the half-open
/// rectangle `[min, max)`.
pub open spec fn in_viewport(rect: ViewportRect, x: int, my: int) -> bool {
    rect.min.x <= x < rect.max.x && rect.min.y <= my < rect.max.y
}

/// Whether the camera has the geometry the resolver needs.
pub open spec fn has_resolver_geometry(cam: CameraGeometry) -> bool {
    cam.physical_target_size is Some && cam.viewport is Some
}

/// Whether a window-space position resolves to a point inside the camera's
/// viewport.
pub open spec fn resolves(cam: CameraGeometry, pos: Vec2) -> bool {
    &&& has_resolver_geometry(cam)
    &&& in_viewport(
        cam.viewport->0,
        pos.x as int,
        mirror_y(cam.physical_target_size->0.y as int, pos.y as int),
    )
}

/// X component of the resolved viewport-local position.
pub open spec fn resolved_x(cam: CameraGeometry, pos: Vec2) -> int {
    pos.x - cam.viewport->0.min.x
}

/// Y component of the resolved viewport-local position.
pub open spec fn resolved_y(cam: CameraGeometry, pos: Vec2) -> int {
    mirror_y(cam.physical_target_size->0.y as int, pos.y as int) - cam.viewport->0.min.y
}

/// Translate a window-space position into the relative position in the
/// camera's viewport, if the position is over the viewport.
///
/// Returns `None` when the camera is missing its target size or viewport
/// rectangle, or when the Y-mirrored position falls outside `[min, max)`.
/// Inside the rectangle, the result is the mirrored position translated by
/// `min`; the Y component is re-wrapped with a positive-modulo formula, which
/// on whole pixels is provably the identity for in-bounds positions.
pub fn window_to_viewport(camera: &CameraGeometry, window_position: Vec2) -> (r: Option<Vec2>)
    requires
        camera.wf(),
    ensures
        r is Some <==> resolves(*camera, window_position),
        r matches Some(p) ==> {
            &&& p.x as int == resolved_x(*camera, window_position)
            &&& p.y as int == resolved_y(*camera, window_position)
            &&& 0 <= p.x < camera.viewport->0.max.x - camera.viewport->0.min.x
            &&& 0 <= p.y < camera.viewport->0.height()
        },
{
    let target_size = match camera.physical_target_size {
        Some(s) => s,
        None => {
            return None;
        },
    };
    let rect = match camera.viewport {
        Some(v) => v,
        None => {
            return None;
        },
    };
    let height: i64 = target_size.y as i64;
    let raw_y: i64 = window_position.y as i64;
    let mirrored_y: i64 = if height - raw_y >= 0 {
        height - raw_y
    } else {
        0
    };
    let x: i64 = window_position.x as i64;
    if x >= rect.min.x as i64 && mirrored_y >= rect.min.y as i64 && x < rect.max.x as i64
        && mirrored_y < rect.max.y as i64 {
        let vp_height: i64 = rect.max.y as i64 - rect.min.y as i64;
        let offset_y: i64 = mirrored_y - rect.min.y as i64;
        let rewrapped_y: i64 = ((offset_y % vp_height) + vp_height) % vp_height;
        proof {
            let oy = offset_y as int;
            let m = vp_height as int;
            vstd::arithmetic::div_mod::lemma_small_mod(oy as nat, m as nat);
            vstd::arithmetic::div_mod::lemma_mod_add_multiples_vanish(oy, m);
            assert((oy % m + m) % m == oy);
        }
        Some(Vec2 { x: (x - rect.min.x as i64) as i32, y: rewrapped_y as i32 })
    } else {
        None
    }
}

/// For every window position whose mirrored image lies inside the viewport
/// rectangle, the resolver succeeds, and undoing the translation and the
/// mirroring reproduces the original position exactly.
pub proof fn lemma_resolver_round_trip(cam: CameraGeometry, pos: Vec2)
    requires
        cam.wf(),
        has_resolver_geometry(cam),
        0 <= pos.y <= cam.physical_target_size->0.y,
        in_viewport(
            cam.viewport->0,
            pos.x as int,
            mirror_y(cam.physical_target_size->0.y as int, pos.y as int),
        ),
    ensures
        resolves(cam, pos),
        resolved_x(cam, pos) + cam.viewport->0.min.x == pos.x,
        cam.physical_target_size->0.y - (resolved_y(cam, pos) + cam.viewport->0.min.y) == pos.y,
{
}

/// Every window position whose mirrored image falls outside the viewport
/// rectangle is rejected: it does not resolve, so the resolver returns
/// `None` for it.
pub proof fn lemma_resolver_rejects_outside(cam: CameraGeometry, pos: Vec2)
    requires
        !in_viewport(
            cam.viewport->0,
            pos.x as int,
            mirror_y(cam.physical_target_size->0.y as int, pos.y as int),
        ),
    ensures
        !resolves(cam, pos),
{
}

/// Mirroring the Y axis twice against the same height is the identity for
/// every coordinate within the target: `height - (height - y) == y`.
pub proof fn lemma_mirror_involution(height: int, y: int)
    requires
        0 <= y <= height,
    ensures
        mirror_y(height, mirror_y(height, y)) == y,
{
}

} // verus!

