//! The pick-source position updater: once per frame, resolve the latest
//! device event against each pick source's camera and write the result into
//! its ray-cast state according to the source's update policy.
//!
//! The host engine drains its event queues once per frame and hands the
//! snapshots here as plain values: the window-cursor-moved events of the
//! frame in order, and the currently active touch contacts in order. Of
//! several cursor events in one frame only the last is meaningful — earlier
//! ones are superseded by it.

use vstd::prelude::*;

use crate::viewport::{
    resolved_x, resolved_y, resolves, window_to_viewport, CameraGeometry, RenderTargetRef, Vec2,
};

verus! {

/// A window-cursor-moved event: the cursor moved to `position` (window
/// space) over the window with id `window_id`.
#[derive(Clone, Copy, PartialEq, Eq, Structural, Debug)]
pub struct CursorMoved {
    pub window_id: u64,
    pub position: Vec2,
}

/// One active touch contact and its raw position.
#[derive(Clone, Copy, PartialEq, Eq, Structural, Debug)]
pub struct TouchContact {
    /// Id of the contact, stable while the finger stays down.
    pub id: u64,
    /// Raw contact position; touch positions are reported in non-negative
    /// screen coordinates.
    pub position: Vec2,
}

impl TouchContact {
    /// Touch positions are reported in non-negative screen coordinates.
    pub open spec fn wf(self) -> bool {
        0 <= self.position.x && 0 <= self.position.y
    }
}

/// Per-pick-source policy deciding how the ray-cast state is refreshed on a
/// frame without a new device event.
#[derive(Clone, Copy, PartialEq, Eq, Structural, Debug)]
pub enum UpdatePicks {
    /// Refresh every frame, replaying the carried last-known position when
    /// no new event arrived, so a camera that moved under a stationary
    /// pointer still recomputes its hits.
    EveryFrame(Vec2),
    /// Refresh only on a frame with a new event; cheaper, but a moving
    /// camera under a stationary pointer keeps stale hits until the next
    /// event.
    OnMouseEvent,
}

/// The ray-cast state of a pick source, consumed by a ray-casting backend to
/// build a world-space ray.
#[derive(Clone, Copy, PartialEq, Eq, Structural, Debug)]
pub enum RayCastMethod {
    /// Cast along the camera transform's forward axis.
    Transform,
    /// Cast through the given viewport-local screenspace position.
    Screenspace(Vec2),
}

/// The camera-attached pick source: holds the ray-cast state that the
/// updater refreshes with resolved positions.
#[derive(Clone, Copy, PartialEq, Eq, Structural, Debug)]
pub struct PickingCamera {
    pub cast_method: RayCastMethod,
}

/// One entity as the updater sees it: its pick source, and its update policy
/// and camera when the entity has them. An entity missing either component,
/// or whose camera has no resolvable logical viewport size, is skipped — the
/// camera is simply not ready, which is no error.
#[derive(Clone, Copy, PartialEq, Eq, Debug)]
pub struct PickSourceEntry {
    pub source: PickingCamera,
    pub update_picks: Option<UpdatePicks>,
    pub camera: Option<CameraGeometry>,
}

impl PickSourceEntry {
    /// The entry's camera geometry, when present, is well formed.
    pub open spec fn wf(self) -> bool {
        self.camera matches Some(c) ==> c.wf()
    }
}

/// The last element of a frame's cursor-moved events: the only one that is
/// still meaningful at frame end.
pub open spec fn latest_cursor_spec(events: Seq<CursorMoved>) -> Option<CursorMoved> {
    if events.len() == 0 {
        None
    } else {
        Some(events[events.len() - 1])
    }
}

/// The last of the currently active touch contacts.
pub open spec fn latest_touch_spec(touches: Seq<TouchContact>) -> Option<TouchContact> {
    if touches.len() == 0 {
        None
    } else {
        Some(touches[touches.len() - 1])
    }
}

/// Of all cursor-moved events of one frame, take the single latest: earlier
/// ones are superseded by it.
pub fn latest_cursor_event(events: &Vec<CursorMoved>) -> (r: Option<CursorMoved>)
    ensures
        r == latest_cursor_spec(events@),
{
    if events.len() == 0 {
        None
    } else {
        Some(events[events.len() - 1])
    }
}

/// The latest active touch contact, if a finger is down.
pub fn latest_touch(touches: &Vec<TouchContact>) -> (r: Option<TouchContact>)
    ensures
        r == latest_touch_spec(touches@),
{
    if touches.len() == 0 {
        None
    } else {
        Some(touches[touches.len() - 1])
    }
}

/// Whether the frame's cursor event belongs to the camera's own render
/// target: the camera renders to a window and the event names that window.
/// An event for another window is ignored for this camera.
pub open spec fn cursor_matches_target(cam: CameraGeometry, cursor: Option<CursorMoved>) -> bool {
    &&& cursor is Some
    &&& cam.target is Window
    &&& cursor->0.window_id == cam.target->Window_0
}

/// Whether resolving this frame's inputs against the camera yields a
/// position. A matching cursor event yields one unless the camera has an
/// explicit viewport and the event falls outside it; with no matching cursor
/// event the latest touch contact, when one is active, serves as fallback.
pub open spec fn candidate_is_some(
    cam: CameraGeometry,
    cursor: Option<CursorMoved>,
    touch: Option<TouchContact>,
) -> bool {
    if cursor_matches_target(cam, cursor) {
        if cam.viewport is Some {
            resolves(cam, cursor->0.position)
        } else {
            true
        }
    } else {
        touch is Some
    }
}

/// X component of the resolved candidate position.
pub open spec fn candidate_x(
    cam: CameraGeometry,
    cursor: Option<CursorMoved>,
    touch: Option<TouchContact>,
) -> int {
    if cursor_matches_target(cam, cursor) {
        if cam.viewport is Some {
            resolved_x(cam, cursor->0.position)
        } else {
            cursor->0.position.x as int
        }
    } else {
        touch->0.position.x as int
    }
}

/// Y component of the resolved candidate position. A position from a
/// matching cursor event over a camera without an explicit viewport passes
/// through raw; a touch fallback position is mirrored against the camera's
/// logical viewport height.
pub open spec fn candidate_y(
    cam: CameraGeometry,
    cursor: Option<CursorMoved>,
    touch: Option<TouchContact>,
) -> int {
    if cursor_matches_target(cam, cursor) {
        if cam.viewport is Some {
            resolved_y(cam, cursor->0.position)
        } else {
            cursor->0.position.y as int
        }
    } else {
        cam.logical_viewport_size->0.y - touch->0.position.y
    }
}

/// The candidate position this frame's inputs resolve to against the
/// camera, or `None` when they resolve to no position.
pub open spec fn candidate_spec(
    cam: CameraGeometry,
    cursor: Option<CursorMoved>,
    touch: Option<TouchContact>,
) -> Option<Vec2> {
    if candidate_is_some(cam, cursor, touch) {
        Some(
            Vec2 {
                x: candidate_x(cam, cursor, touch) as i32,
                y: candidate_y(cam, cursor, touch) as i32,
            },
        )
    } else {
        None
    }
}

/// Determine the candidate position for one camera from this frame's latest
/// cursor event and latest touch contact.
///
/// A cursor event for the camera's own window wins: it is resolved through
/// the coordinate resolver when the camera has an explicit viewport and
/// passed through raw when it has none. Without a matching cursor event the
/// latest touch contact, Y-mirrored against the camera's logical viewport
/// height, serves as fallback. `None` means these inputs resolve to no
/// position for this camera.
pub fn candidate_position(
    camera: &CameraGeometry,
    cursor_last: &Option<CursorMoved>,
    touch_last: &Option<TouchContact>,
) -> (r: Option<Vec2>)
    requires
        camera.wf(),
        camera.logical_viewport_size is Some,
        touch_last matches Some(t) ==> t.wf(),
    ensures
        r == candidate_spec(*camera, *cursor_last, *touch_last),
{
    let cursor_for_target: Option<CursorMoved> = match (cursor_last, &camera.target) {
        (Some(event), RenderTargetRef::Window(window_id)) => {
            if event.window_id == *window_id {
                Some(*event)
            } else {
                None
            }
        },
        _ => None,
    };
    match cursor_for_target {
        Some(event) => {
            if camera.viewport.is_some() {
                window_to_viewport(camera, event.position)
            } else {
                Some(event.position)
            }
        },
        None => {
            match (touch_last, &camera.logical_viewport_size) {
                (Some(touch), Some(size)) => {
                    let mirrored: i64 = size.y as i64 - touch.position.y as i64;
                    Some(Vec2 { x: touch.position.x, y: mirrored as i32 })
                },
                _ => None,
            }
        },
    }
}

/// Whether the policy writes the ray-cast state this frame: `EveryFrame`
/// always writes (replaying its cache when the candidate is absent),
/// `OnMouseEvent` writes only for a present candidate.
pub open spec fn policy_writes(picks: UpdatePicks, candidate: Option<Vec2>) -> bool {
    match picks {
        UpdatePicks::EveryFrame(_) => true,
        UpdatePicks::OnMouseEvent => candidate is Some,
    }
}

/// The ray-cast state after the policy is applied to the candidate.
pub open spec fn next_cast(
    picks: UpdatePicks,
    cast: RayCastMethod,
    candidate: Option<Vec2>,
) -> RayCastMethod {
    match picks {
        UpdatePicks::EveryFrame(cached) => match candidate {
            Some(p) => RayCastMethod::Screenspace(p),
            None => RayCastMethod::Screenspace(cached),
        },
        UpdatePicks::OnMouseEvent => match candidate {
            Some(p) => RayCastMethod::Screenspace(p),
            None => cast,
        },
    }
}

/// The policy state after it is applied to the candidate: `EveryFrame`
/// re-caches a present candidate, `OnMouseEvent` carries no state.
pub open spec fn next_picks(picks: UpdatePicks, candidate: Option<Vec2>) -> UpdatePicks {
    match picks {
        UpdatePicks::EveryFrame(cached) => match candidate {
            Some(p) => UpdatePicks::EveryFrame(p),
            None => UpdatePicks::EveryFrame(cached),
        },
        UpdatePicks::OnMouseEvent => UpdatePicks::OnMouseEvent,
    }
}

/// Apply the frame update policy: write the candidate position (or, under
/// `EveryFrame`, the cached fallback) into the ray-cast state, or skip the
/// write entirely under `OnMouseEvent` with no candidate. Returns whether
/// the state was written; when it was not, both components are left exactly
/// as they were.
pub fn apply_update_policy(
    source: &mut PickingCamera,
    update_picks: &mut UpdatePicks,
    candidate: Option<Vec2>,
) -> (wrote: bool)
    ensures
        final(source).cast_method == next_cast(
            *old(update_picks),
            old(source).cast_method,
            candidate,
        ),
        *final(update_picks) == next_picks(*old(update_picks), candidate),
        wrote == policy_writes(*old(update_picks), candidate),
        !wrote ==> *final(source) == *old(source) && *final(update_picks) == *old(update_picks),
{
    match *update_picks {
        UpdatePicks::EveryFrame(cached) => {
            match candidate {
                Some(p) => {
                    source.cast_method = RayCastMethod::Screenspace(p);
                    *update_picks = UpdatePicks::EveryFrame(p);
                },
                None => {
                    source.cast_method = RayCastMethod::Screenspace(cached);
                },
            }
            true
        },
        UpdatePicks::OnMouseEvent => {
            match candidate {
                Some(p) => {
                    source.cast_method = RayCastMethod::Screenspace(p);
                    true
                },
                None => false,
            }
        },
    }
}

/// Whether the updater can work on this entry at all: it has an update
/// policy and a camera whose logical viewport size is resolvable.
pub open spec fn entry_ready(e: PickSourceEntry) -> bool {
    &&& e.camera is Some
    &&& e.update_picks is Some
    &&& e.camera->0.logical_viewport_size is Some
}

/// One frame of the updater on one entry: a ready entry has its policy
/// applied to the candidate its camera resolves from the frame's inputs; an
/// entry that is not ready is left untouched.
pub open spec fn step_entry(
    e: PickSourceEntry,
    cursor: Option<CursorMoved>,
    touch: Option<TouchContact>,
) -> PickSourceEntry {
    if entry_ready(e) {
        let candidate = candidate_spec(e.camera->0, cursor, touch);
        PickSourceEntry {
            source: PickingCamera {
                cast_method: next_cast(e.update_picks->0, e.source.cast_method, candidate),
            },
            update_picks: Some(next_picks(e.update_picks->0, candidate)),
            camera: e.camera,
        }
    } else {
        e
    }
}

/// Update one pick source from this frame's latest cursor event and latest
/// touch contact. Returns whether the entry's ray-cast state was written;
/// when it was not, the entry is left exactly as it was.
pub fn update_one_pick_source(
    entry: &mut PickSourceEntry,
    cursor_last: &Option<CursorMoved>,
    touch_last: &Option<TouchContact>,
) -> (wrote: bool)
    requires
        old(entry).wf(),
        touch_last matches Some(t) ==> t.wf(),
    ensures
        *final(entry) == step_entry(*old(entry), *cursor_last, *touch_last),
        wrote == (entry_ready(*old(entry)) && policy_writes(
            old(entry).update_picks->0,
            candidate_spec(old(entry).camera->0, *cursor_last, *touch_last),
        )),
        !wrote ==> *final(entry) == *old(entry),
{
    let camera: CameraGeometry = match &entry.camera {
        Some(c) => *c,
        None => {
            return false;
        },
    };
    if camera.logical_viewport_size.is_none() {
        return false;
    }
    let candidate = candidate_position(&camera, cursor_last, touch_last);
    match &mut entry.update_picks {
        Some(picks) => apply_update_policy(&mut entry.source, picks, candidate),
        None => false,
    }
}

/// The entry after `n` consecutive frames in which no device event arrived:
/// no cursor-moved event and no active touch contact.
pub open spec fn idle_frames(e: PickSourceEntry, n: nat) -> PickSourceEntry
    decreases n,
{
    if n == 0 {
        e
    } else {
        step_entry(idle_frames(e, (n - 1) as nat), None, None)
    }
}

/// On a frame without a device event no candidate position resolves for any
/// camera.
pub proof fn lemma_no_event_no_candidate(cam: CameraGeometry)
    ensures
        candidate_spec(cam, None, None) is None,
{
}

/// Under the `EveryFrame` policy, a ready entry that sees no device event
/// for any number of consecutive frames has, after each of those frames, its
/// ray-cast state equal to the cached position from the last real event, and
/// keeps its policy and camera unchanged.
pub proof fn lemma_every_frame_replays_cache(e: PickSourceEntry, cached: Vec2, n: nat)
    requires
        entry_ready(e),
        e.update_picks == Some(UpdatePicks::EveryFrame(cached)),
        n >= 1,
    ensures
        idle_frames(e, n).source.cast_method == RayCastMethod::Screenspace(cached),
        idle_frames(e, n).update_picks == e.update_picks,
        idle_frames(e, n).camera == e.camera,
    decreases n,
{
    if n == 1 {
        assert(idle_frames(e, 0) == e);
    } else {
        lemma_every_frame_replays_cache(e, cached, (n - 1) as nat);
    }
}

/// Under the `OnMouseEvent` policy, a frame without a device event mutates
/// nothing: the entry after the frame is identical to the entry before it,
/// and the policy performs no write at all.
pub proof fn lemma_on_mouse_event_idle_frame_is_no_op(e: PickSourceEntry)
    requires
        e.update_picks == Some(UpdatePicks::OnMouseEvent),
    ensures
        step_entry(e, None, None) == e,
        entry_ready(e) ==> !policy_writes(
            e.update_picks->0,
            candidate_spec(e.camera->0, None, None),
        ),
{
}

/// Under the `OnMouseEvent` policy, any number of consecutive frames without
/// a device event leaves the entry identical to its pre-frame value after
/// every one of them.
pub proof fn lemma_on_mouse_event_idle_is_identity(e: PickSourceEntry, n: nat)
    requires
        e.update_picks == Some(UpdatePicks::OnMouseEvent),
    ensures
        idle_frames(e, n) == e,
    decreases n,
{
    if n > 0 {
        lemma_on_mouse_event_idle_is_identity(e, (n - 1) as nat);
        lemma_on_mouse_event_idle_frame_is_no_op(e);
    }
}

/// Update every pick source's ray-cast state from this frame's device event
/// snapshots: each entry steps independently on the single latest
/// cursor-moved event and the latest active touch contact.
pub fn update_pick_source_positions(
    cursor_events: &Vec<CursorMoved>,
    touches: &Vec<TouchContact>,
    entries: &mut Vec<PickSourceEntry>,
)
    requires
        forall|i: int| 0 <= i < old(entries)@.len() ==> (#[trigger] old(entries)@[i]).wf(),
        forall|i: int| 0 <= i < touches@.len() ==> (#[trigger] touches@[i]).wf(),
    ensures
        final(entries)@.len() == old(entries)@.len(),
        forall|i: int|
            0 <= i < old(entries)@.len() ==> (#[trigger] final(entries)@[i]) == step_entry(
                old(entries)@[i],
                latest_cursor_spec(cursor_events@),
                latest_touch_spec(touches@),
            ),
{
    let cursor_last = latest_cursor_event(cursor_events);
    let touch_last = latest_touch(touches);
    let ghost cl = latest_cursor_spec(cursor_events@);
    let ghost tl = latest_touch_spec(touches@);
    let mut i: usize = 0;
    while i < entries.len()
        invariant
            i <= entries@.len(),
            entries@.len() == old(entries)@.len(),
            cursor_last == cl,
            touch_last == tl,
            touch_last matches Some(t) ==> t.wf(),
            forall|j: int| 0 <= j < old(entries)@.len() ==> (#[trigger] old(entries)@[j]).wf(),
            forall|j: int|
                0 <= j < i ==> (#[trigger] entries@[j]) == step_entry(old(entries)@[j], cl, tl),
            forall|j: int| i <= j < entries@.len() ==> (#[trigger] entries@[j]) == old(entries)@[j],
        decreases entries@.len() - i,
    {
        update_one_pick_source(&mut entries[i], &cursor_last, &touch_last);
        i = i + 1;
    }
}

} // verus!
