//! The pointer registry: logical pointer identities and the components a
//! pointer entity carries.
//!
//! One logical pointer exists per physical input device: the single mouse,
//! one pointer per possible touch contact, and optional custom (software)
//! pointers. Pointers are preallocated eagerly at startup and persist for
//! the application's lifetime; only their location and press payload churns
//! per frame.

use vstd::prelude::*;

use crate::viewport::{RenderTargetRef, Vec2};

verus! {

/// Identity of a logical pointer, unique per active pointer and stable for
/// the pointer's lifetime.
#[derive(Clone, Copy, PartialEq, Eq, Structural, Debug)]
pub enum PointerId {
    /// The single mouse pointer.
    Mouse,
    /// One touch contact, by its contact id.
    Touch(u64),
    /// A software pointer, by an opaque id chosen by its owner.
    Custom(u64),
}

impl PointerId {
    /// Whether this is the mouse pointer.
    pub fn is_mouse(&self) -> (r: bool)
        ensures
            r == (*self is Mouse),
    {
        match self {
            PointerId::Mouse => true,
            _ => false,
        }
    }
}

/// A pointer's position over a render target, in window space.
#[derive(Clone, Copy, PartialEq, Eq, Structural, Debug)]
pub struct Location {
    /// Window-space position.
    pub position: Vec2,
    /// The render target the position is measured on.
    pub target: RenderTargetRef,
}

/// Component tracking a pointer's current location; `None` while the pointer
/// is not over any render target.
#[derive(Clone, Copy, PartialEq, Eq, Debug)]
pub struct PointerLocation {
    pub location: Option<Location>,
}

/// Component tracking a pointer's button press state, independent of its
/// location.
#[derive(Clone, Copy, PartialEq, Eq, Structural, Debug)]
pub struct PointerPress {
    pub primary: bool,
    pub secondary: bool,
    pub middle: bool,
}

impl PointerPress {
    /// Whether no button of the pointer is held down.
    pub open spec fn is_unpressed(self) -> bool {
        !self.primary && !self.secondary && !self.middle
    }
}

/// Component tracking which entities a pointer currently interacts with.
#[derive(PartialEq, Eq, Debug)]
pub struct PointerInteraction {
    /// Ids of the entities the pointer is over, nearest first.
    pub entities: Vec<u64>,
}

/// The components needed to build a pointer entity. The mouse and touch
/// pointers are spawned by [`add_default_pointers`]; spawn this bundle
/// yourself for a custom pointer.
#[derive(PartialEq, Eq, Debug)]
pub struct PointerBundle {
    /// The pointer's unique id.
    pub id: PointerId,
    /// Tracks the pointer's location.
    pub location: PointerLocation,
    /// Tracks the pointer's button press state.
    pub click: PointerPress,
    /// Tracks the pointer's interaction state.
    pub interaction: PointerInteraction,
}

impl PointerBundle {
    /// Whether the bundle carries the default payload: no location, no
    /// button held, no tracked interaction.
    pub open spec fn is_fresh(self) -> bool {
        &&& self.location.location is None
        &&& self.click.is_unpressed()
        &&& self.interaction.entities@ == Seq::<u64>::empty()
    }

    /// Create a new pointer with the provided id, a default (absent)
    /// location, default (unpressed) press state and default interaction
    /// state.
    pub fn new(id: PointerId) -> (r: PointerBundle)
        ensures
            r.id == id,
            r.is_fresh(),
    {
        PointerBundle {
            id,
            location: PointerLocation { location: None },
            click: PointerPress { primary: false, secondary: false, middle: false },
            interaction: PointerInteraction { entities: Vec::new() },
        }
    }
}

/// How many touch pointers are preallocated: enough for every concurrent
/// contact the most generous platforms report (twenty touch points plus ten
/// pen contacts).
pub const DEFAULT_TOUCH_POINTER_COUNT: u64 = 30;

/// Build the default pointer pool spawned at application start: exactly one
/// `Mouse` pointer followed by one `Touch(i)` pointer for each preallocated
/// contact slot `i`, every one with its default payload.
pub fn add_default_pointers() -> (r: Vec<PointerBundle>)
    ensures
        r@.len() == 1 + DEFAULT_TOUCH_POINTER_COUNT,
        r@[0].id == PointerId::Mouse,
        forall|i: int|
            1 <= i < r@.len() ==> (#[trigger] r@[i].id) == PointerId::Touch((i - 1) as u64),
        forall|i: int| 0 <= i < r@.len() ==> (#[trigger] r@[i]).is_fresh(),
{
    let mut pointers: Vec<PointerBundle> = Vec::new();
    pointers.push(PointerBundle::new(PointerId::Mouse));
    let mut i: u64 = 0;
    while i < DEFAULT_TOUCH_POINTER_COUNT
        invariant
            i <= DEFAULT_TOUCH_POINTER_COUNT,
            pointers@.len() == 1 + i,
            pointers@[0].id == PointerId::Mouse,
            forall|j: int|
                1 <= j < pointers@.len() ==> (#[trigger] pointers@[j].id) == PointerId::Touch(
                    (j - 1) as u64,
                ),
            forall|j: int| 0 <= j < pointers@.len() ==> (#[trigger] pointers@[j]).is_fresh(),
        decreases DEFAULT_TOUCH_POINTER_COUNT - i,
    {
        pointers.push(PointerBundle::new(PointerId::Touch(i)));
        i = i + 1;
    }
    pointers
}

/// In a pool shaped like the default one — the mouse pointer first, then one
/// touch pointer per contact slot — every pointer id occurs exactly once,
/// and the mouse pointer is exactly the first entry.
pub proof fn lemma_default_pool_ids_unique(pointers: Seq<PointerBundle>)
    requires
        pointers.len() == 1 + DEFAULT_TOUCH_POINTER_COUNT,
        pointers[0].id == PointerId::Mouse,
        forall|i: int|
            1 <= i < pointers.len() ==> (#[trigger] pointers[i].id) == PointerId::Touch(
                (i - 1) as u64,
            ),
    ensures
        forall|i: int, j: int|
            0 <= i < j < pointers.len() ==> pointers[i].id != pointers[j].id,
        forall|i: int| 0 <= i < pointers.len() && (#[trigger] pointers[i].id) is Mouse ==> i == 0,
{
}

} // verus!
