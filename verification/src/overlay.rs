//! The overlay's shared state: whether it is shown, and which menu segment
//! the cursor currently selects.

use vstd::prelude::*;

verus! {

/// State shared between the input side, which shows and hides the overlay,
/// and the hit test, which is the only writer of `selected_segment`.
#[derive(Clone, Copy, Debug, PartialEq, Eq)]
pub struct OverlayContent {
    pub visible: bool,
    /// Index of the selected segment, or `None` while the cursor rests on the hub.
    pub selected_segment: Option<i32>,
}

/// What an update of the selection did; the caller reports it to the user.
#[derive(Clone, Copy, Debug, PartialEq, Eq)]
pub enum SelectionChange {
    /// The selection is what it was.
    Unchanged,
    /// A segment became selected, replacing another segment or none.
    Selected(i32),
    /// A selected segment was deselected.
    Cleared,
}

/// The notification owed when the selection goes from `before` to `after`.
pub open spec fn selection_change(before: Option<i32>, after: Option<i32>) -> SelectionChange {
    if before == after {
        SelectionChange::Unchanged
    } else {
        match after {
            Some(segment) => SelectionChange::Selected(segment),
            None => SelectionChange::Cleared,
        }
    }
}

impl OverlayContent {
    /// A hidden overlay with nothing selected.
    pub fn new() -> (overlay: Self)
        ensures
            overlay == (OverlayContent { visible: false, selected_segment: None }),
    {
        Self { visible: false, selected_segment: None }
    }

    /// Shows a hidden overlay and hides a shown one; the selection stays.
    pub fn toggle_visibility(&mut self)
        ensures
            final(self).visible == !old(self).visible,
            final(self).selected_segment == old(self).selected_segment,
    {
        self.visible = !self.visible;
    }

    /// Records the outcome of a hit test as the new selection and says what
    /// changed. Visibility is never touched.
    pub fn select(&mut self, hit: Option<i32>) -> (change: SelectionChange)
        ensures
            final(self).selected_segment == hit,
            final(self).visible == old(self).visible,
            change == selection_change(old(self).selected_segment, hit),
    {
        let unchanged = match (self.selected_segment, hit) {
            (Some(a), Some(b)) => a == b,
            (None, None) => true,
            _ => false,
        };
        self.selected_segment = hit;
        if unchanged {
            SelectionChange::Unchanged
        } else {
            match hit {
                Some(segment) => SelectionChange::Selected(segment),
                None => SelectionChange::Cleared,
            }
        }
    }
}

/// What a turn of the main loop found out about the overlay's visibility.
#[derive(Clone, Copy, Debug, PartialEq, Eq)]
pub enum VisibilityChange {
    /// The overlay is as visible as it was a turn ago.
    Unchanged,
    /// The overlay came up; the caller places and reveals the window.
    Shown,
    /// The overlay went away; the caller acts on the committed segment, if
    /// there is one, and conceals the window.
    Hidden { committed: Option<i32> },
}

/// What the main loop remembers from one turn to the next.
#[derive(Clone, Copy, Debug, PartialEq, Eq)]
pub struct GestureTracker {
    /// Whether the modifier key was down a turn ago.
    pub modifier_was_down: bool,
    /// Whether the overlay was visible at the end of the last turn.
    pub was_visible: bool,
}

/// Whether the overlay is visible after a turn in which the modifier key
/// is found `modifier_down`: releasing the key hides it.
pub open spec fn visible_after_turn(
    tracker: GestureTracker,
    modifier_down: bool,
    visible: bool,
) -> bool {
    visible && !(tracker.modifier_was_down && !modifier_down)
}

/// The change that a turn reports.
pub open spec fn change_of_turn(
    tracker: GestureTracker,
    modifier_down: bool,
    overlay: OverlayContent,
) -> VisibilityChange {
    let visible = visible_after_turn(tracker, modifier_down, overlay.visible);
    if visible == tracker.was_visible {
        VisibilityChange::Unchanged
    } else if visible {
        VisibilityChange::Shown
    } else {
        VisibilityChange::Hidden { committed: overlay.selected_segment }
    }
}

impl GestureTracker {
    /// A tracker for a hidden overlay with the modifier key up.
    pub fn new() -> (tracker: Self)
        ensures
            tracker == (GestureTracker { modifier_was_down: false, was_visible: false }),
    {
        GestureTracker { modifier_was_down: false, was_visible: false }
    }

    /// One turn of the main loop, after the pending input has been
    /// handled. Releasing the modifier key hides a visible overlay. When
    /// the overlay goes away, by this or by anything else since the last
    /// turn, the selection is committed: it is handed to the caller and
    /// cleared.
    pub fn turn(&mut self, modifier_down: bool, overlay: &mut OverlayContent) -> (change:
        VisibilityChange)
        ensures
            change == change_of_turn(*old(self), modifier_down, *old(overlay)),
            final(overlay).visible == visible_after_turn(
                *old(self),
                modifier_down,
                old(overlay).visible,
            ),
            final(overlay).selected_segment == if change is Hidden {
                None
            } else {
                old(overlay).selected_segment
            },
            *final(self) == (GestureTracker {
                modifier_was_down: modifier_down,
                was_visible: final(overlay).visible,
            }),
    {
        if self.modifier_was_down && !modifier_down {
            overlay.visible = false;
        }
        self.modifier_was_down = modifier_down;
        if overlay.visible == self.was_visible {
            return VisibilityChange::Unchanged;
        }
        self.was_visible = overlay.visible;
        if overlay.visible {
            VisibilityChange::Shown
        } else {
            let committed = overlay.selected_segment;
            overlay.selected_segment = None;
            VisibilityChange::Hidden { committed }
        }
    }
}

} // verus!
