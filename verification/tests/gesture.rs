use radial_overlay::overlay::{GestureTracker, OverlayContent, VisibilityChange};

#[test]
fn new_tracker_expects_hidden_overlay_and_key_up() {
    let tracker = GestureTracker::new();
    assert!(!tracker.modifier_was_down);
    assert!(!tracker.was_visible);
}

#[test]
fn hotkey_shows_and_release_commits() {
    let mut tracker = GestureTracker::new();
    let mut overlay = OverlayContent::new();

    // Nothing happens while the overlay stays hidden.
    assert_eq!(tracker.turn(false, &mut overlay), VisibilityChange::Unchanged);

    // The hotkey arrives while the modifier is held.
    overlay.visible = true;
    assert_eq!(tracker.turn(true, &mut overlay), VisibilityChange::Shown);
    assert!(overlay.visible);
    assert!(tracker.was_visible);
    assert!(tracker.modifier_was_down);

    // The cursor selects a segment; the key is still held.
    overlay.selected_segment = Some(3);
    assert_eq!(tracker.turn(true, &mut overlay), VisibilityChange::Unchanged);
    assert_eq!(overlay.selected_segment, Some(3));

    // Releasing the key hides the overlay and commits the segment.
    assert_eq!(
        tracker.turn(false, &mut overlay),
        VisibilityChange::Hidden { committed: Some(3) }
    );
    assert!(!overlay.visible);
    assert_eq!(overlay.selected_segment, None);
    assert!(!tracker.was_visible);

    // The next turn has nothing to report.
    assert_eq!(tracker.turn(false, &mut overlay), VisibilityChange::Unchanged);
}

#[test]
fn release_without_selection_commits_nothing() {
    let mut tracker = GestureTracker { modifier_was_down: true, was_visible: true };
    let mut overlay = OverlayContent { visible: true, selected_segment: None };
    assert_eq!(
        tracker.turn(false, &mut overlay),
        VisibilityChange::Hidden { committed: None }
    );
    assert!(!overlay.visible);
}

#[test]
fn pressing_the_key_does_not_hide() {
    let mut tracker = GestureTracker { modifier_was_down: false, was_visible: true };
    let mut overlay = OverlayContent { visible: true, selected_segment: Some(1) };
    assert_eq!(tracker.turn(true, &mut overlay), VisibilityChange::Unchanged);
    assert!(overlay.visible);
    assert_eq!(overlay.selected_segment, Some(1));
}

#[test]
fn release_in_the_turn_of_the_hotkey_reports_nothing() {
    // Shown and hidden again within one turn: the window never came up.
    let mut tracker = GestureTracker { modifier_was_down: true, was_visible: false };
    let mut overlay = OverlayContent { visible: true, selected_segment: None };
    assert_eq!(tracker.turn(false, &mut overlay), VisibilityChange::Unchanged);
    assert!(!overlay.visible);
    assert!(!tracker.was_visible);
}

#[test]
fn hiding_by_toggle_commits_too() {
    let mut tracker = GestureTracker { modifier_was_down: true, was_visible: true };
    let mut overlay = OverlayContent { visible: true, selected_segment: Some(5) };
    overlay.toggle_visibility();
    assert_eq!(
        tracker.turn(true, &mut overlay),
        VisibilityChange::Hidden { committed: Some(5) }
    );
    assert_eq!(overlay.selected_segment, None);
}
