//! The cursor location synchronizer: keep one canonical mouse-cursor
//! component in sync with the window system's reported cursor position.
//!
//! This is the simpler, single-pointer input path: no viewport math, just
//! the raw window position and the id of the window it was observed on. The
//! mouse-cursor entity is created lazily on the first observed position and
//! thereafter overwritten in place whenever the observed location changes.

use vstd::prelude::*;

use crate::pointer::Location;
use crate::viewport::{RenderTargetRef, Vec2};

verus! {

/// When the synchronizer recomputes the cursor location.
#[derive(Clone, Copy, PartialEq, Eq, Structural, Debug)]
pub enum UpdateMode {
    /// Recompute every scheduling tick, even with no new event.
    EveryFrame,
    /// Skip the tick entirely when no movement or leave event fired.
    OnEvent,
}

/// Configuration of the input synchronizer.
#[derive(Clone, Copy, PartialEq, Eq, Structural, Debug)]
pub struct InputPluginSettings {
    pub mode: UpdateMode,
}

/// Identity of a cursor tracked by the input layer.
#[derive(Clone, Copy, PartialEq, Eq, Structural, Debug)]
pub enum CursorId {
    /// The single mouse cursor.
    Mouse,
    /// One touch contact, by its contact id.
    Touch(u64),
}

impl CursorId {
    /// Whether this is the mouse cursor.
    pub fn is_mouse(&self) -> (r: bool)
        ensures
            r == (*self is Mouse),
    {
        match self {
            CursorId::Mouse => true,
            _ => false,
        }
    }
}

/// Component holding a cursor's current location; `None` while the cursor
/// is not over any window.
#[derive(Clone, Copy, PartialEq, Eq, Debug)]
pub struct CursorLocation {
    pub location: Option<Location>,
}

/// Component holding a cursor's pressed state.
#[derive(Clone, Copy, PartialEq, Eq, Structural, Debug)]
pub struct CursorClick {
    pub is_clicked: bool,
}

/// The components needed to build a cursor entity.
#[derive(Clone, Copy, PartialEq, Eq, Debug)]
pub struct CursorBundle {
    pub id: CursorId,
    pub location: CursorLocation,
    pub click: CursorClick,
}

impl CursorBundle {
    /// Create a new cursor from its components.
    pub fn new(id: CursorId, location: CursorLocation, click: CursorClick) -> (r: CursorBundle)
        ensures
            r.id == id,
            r.location == location,
            r.click == click,
    {
        CursorBundle { id, location, click }
    }
}

/// What the synchronizer reads of one window: its id, and the cursor's
/// position over it when the window system reports one.
#[derive(Clone, Copy, PartialEq, Eq, Debug)]
pub struct WindowSnapshot {
    pub id: u64,
    pub cursor_position: Option<Vec2>,
}

/// One tracked cursor entity: its id and its location component.
#[derive(Clone, Copy, PartialEq, Eq, Debug)]
pub struct CursorEntry {
    pub id: CursorId,
    pub location: CursorLocation,
}

/// The location reported by the first window over which the window system
/// sees the cursor, or `None` when no window reports one.
pub open spec fn cursor_position_spec(windows: Seq<WindowSnapshot>) -> Option<Location>
    decreases windows.len(),
{
    if windows.len() == 0 {
        None
    } else if windows[0].cursor_position is Some {
        Some(
            Location {
                position: windows[0].cursor_position->0,
                target: RenderTargetRef::Window(windows[0].id),
            },
        )
    } else {
        cursor_position_spec(windows.drop_first())
    }
}

/// Scan the windows in order and report the cursor's location over the
/// first one that sees it.
pub fn get_cursor_position(windows: &Vec<WindowSnapshot>) -> (r: Option<Location>)
    ensures
        r == cursor_position_spec(windows@),
{
    let ghost all = windows@;
    proof {
        assert(all.skip(0) =~= all);
    }
    let mut i: usize = 0;
    while i < windows.len()
        invariant
            i <= all.len(),
            windows@ == all,
            cursor_position_spec(all) == cursor_position_spec(all.skip(i as int)),
        decreases all.len() - i,
    {
        proof {
            assert(all.skip(i as int).drop_first() =~= all.skip(i as int + 1));
            assert(all.skip(i as int)[0] == all[i as int]);
        }
        match windows[i].cursor_position {
            Some(position) => {
                return Some(
                    Location { position, target: RenderTargetRef::Window(windows[i].id) },
                );
            },
            None => {
            },
        }
        i = i + 1;
    }
    proof {
        assert(all.skip(all.len() as int) =~= Seq::<WindowSnapshot>::empty());
    }
    None
}

/// Whether this entry is the mouse cursor and stores a location other than
/// the newly computed one — the condition under which the scan overwrites
/// it.
pub open spec fn needs_overwrite(e: CursorEntry, new_location: Option<Location>) -> bool {
    e.id is Mouse && e.location.location != new_location
}

/// Index of the first entry the scan would overwrite, if any.
pub open spec fn first_overwrite_index(s: Seq<CursorEntry>, new_location: Option<Location>) -> Option<int>
    decreases s.len(),
{
    if s.len() == 0 {
        None
    } else if needs_overwrite(s[0], new_location) {
        Some(0)
    } else {
        match first_overwrite_index(s.drop_first(), new_location) {
            Some(i) => Some(i + 1),
            None => None,
        }
    }
}

/// Whether any entry is the mouse cursor.
pub open spec fn has_mouse_entry(s: Seq<CursorEntry>) -> bool {
    exists|i: int| 0 <= i < s.len() && (#[trigger] s[i]).id is Mouse
}

/// The first overwrite index, when there is one, names a mouse entry whose
/// location differs, preceded only by entries the scan passes over.
pub proof fn lemma_first_overwrite_index(s: Seq<CursorEntry>, new_location: Option<Location>, i: int)
    requires
        0 <= i < s.len(),
        needs_overwrite(s[i], new_location),
        forall|j: int| 0 <= j < i ==> !needs_overwrite(#[trigger] s[j], new_location),
    ensures
        first_overwrite_index(s, new_location) == Some(i),
    decreases s.len(),
{
    if i > 0 {
        lemma_first_overwrite_index(s.drop_first(), new_location, i - 1);
    }
}

/// When no entry qualifies, the scan finds no overwrite index.
pub proof fn lemma_no_overwrite_index(s: Seq<CursorEntry>, new_location: Option<Location>)
    requires
        forall|j: int| 0 <= j < s.len() ==> !needs_overwrite(#[trigger] s[j], new_location),
    ensures
        first_overwrite_index(s, new_location) is None,
    decreases s.len(),
{
    if s.len() > 0 {
        lemma_no_overwrite_index(s.drop_first(), new_location);
    }
}

/// Compare two optional locations for equality.
pub fn location_eq(a: &Option<Location>, b: &Option<Location>) -> (r: bool)
    ensures
        r == (a == b),
{
    match (a, b) {
        (Some(x), Some(y)) => *x == *y,
        (None, None) => true,
        _ => false,
    }
}

/// The mouse cursor to spawn for a computed location: unclicked, at that
/// location.
pub open spec fn spawned_mouse_cursor(new_location: Option<Location>) -> CursorBundle {
    CursorBundle {
        id: CursorId::Mouse,
        location: CursorLocation { location: new_location },
        click: CursorClick { is_clicked: false },
    }
}

/// Write a newly computed location into the tracked mouse cursor.
///
/// The entries are scanned in order; the first mouse entry whose stored
/// location differs from the new one is overwritten, and the scan stops
/// there. When every mouse entry already stores the new location nothing
/// changes, and when no mouse entry exists at all the returned bundle is
/// the mouse cursor the caller must now spawn.
pub fn update_cursor(cursors: &mut Vec<CursorEntry>, new_location: &Option<Location>) -> (spawn: Option<CursorBundle>)
    ensures
        match first_overwrite_index(old(cursors)@, *new_location) {
            Some(i) => {
                &&& final(cursors)@ == old(cursors)@.update(
                    i,
                    CursorEntry {
                        id: old(cursors)@[i].id,
                        location: CursorLocation { location: *new_location },
                    },
                )
                &&& spawn is None
            },
            None => {
                &&& final(cursors)@ == old(cursors)@
                &&& spawn == if has_mouse_entry(old(cursors)@) {
                    None::<CursorBundle>
                } else {
                    Some(spawned_mouse_cursor(*new_location))
                }
            },
        },
{
    let ghost orig = cursors@;
    let mut saw_mouse: bool = false;
    let mut i: usize = 0;
    while i < cursors.len()
        invariant
            i <= orig.len(),
            old(cursors)@ == orig,
            cursors@ == orig,
            forall|j: int| 0 <= j < i ==> !needs_overwrite(#[trigger] orig[j], *new_location),
            saw_mouse == exists|j: int| 0 <= j < i && (#[trigger] orig[j]).id is Mouse,
        decreases orig.len() - i,
    {
        let is_mouse = cursors[i].id.is_mouse();
        if is_mouse {
            saw_mouse = true;
            if !location_eq(&cursors[i].location.location, new_location) {
                proof {
                    lemma_first_overwrite_index(orig, *new_location, i as int);
                }
                let id = cursors[i].id;
                cursors[i] = CursorEntry {
                    id,
                    location: CursorLocation { location: *new_location },
                };
                return None;
            }
        }
        i = i + 1;
    }
    proof {
        lemma_no_overwrite_index(orig, *new_location);
    }
    if saw_mouse {
        None
    } else {
        Some(
            CursorBundle::new(
                CursorId::Mouse,
                CursorLocation { location: *new_location },
                CursorClick { is_clicked: false },
            ),
        )
    }
}

/// One tick of the cursor location synchronizer.
///
/// Under `OnEvent` mode a tick in which neither a cursor-moved nor a
/// cursor-left event fired does nothing at all. Otherwise the cursor's
/// location is recomputed from the window snapshots and written through
/// [`update_cursor`]; the result is the mouse cursor to spawn when none is
/// tracked yet.
pub fn mouse_pick_events(
    settings: &InputPluginSettings,
    windows: &Vec<WindowSnapshot>,
    moved_event_fired: bool,
    left_event_fired: bool,
    cursors: &mut Vec<CursorEntry>,
) -> (spawn: Option<CursorBundle>)
    ensures
        ({
            let skip = settings.mode is OnEvent && !moved_event_fired && !left_event_fired;
            let nl = cursor_position_spec(windows@);
            if skip {
                final(cursors)@ == old(cursors)@ && spawn is None
            } else {
                match first_overwrite_index(old(cursors)@, nl) {
                    Some(i) => {
                        &&& final(cursors)@ == old(cursors)@.update(
                            i,
                            CursorEntry {
                                id: old(cursors)@[i].id,
                                location: CursorLocation { location: nl },
                            },
                        )
                        &&& spawn is None
                    },
                    None => {
                        &&& final(cursors)@ == old(cursors)@
                        &&& spawn == if has_mouse_entry(old(cursors)@) {
                            None::<CursorBundle>
                        } else {
                            Some(spawned_mouse_cursor(nl))
                        }
                    },
                }
            }
        }),
{
    let skip = match settings.mode {
        UpdateMode::OnEvent => !moved_event_fired && !left_event_fired,
        UpdateMode::EveryFrame => false,
    };
    if skip {
        return None;
    }
    let try_cursor = get_cursor_position(windows);
    update_cursor(cursors, &try_cursor)
}

} // verus!
