//! The single-slot cursor request mailbox: last-write-wins, read-and-clear.

use nih_plug_slint::SlintMouseControl;

#[test]
fn new_mailbox_is_empty() {
    let mut control = SlintMouseControl::new();
    assert!(!control.is_unbounded_requested());
    assert_eq!(control.take_request(), None);
}

#[test]
fn enable_twice_equals_enable_once() {
    // Applying the same enable request twice before a poll yields the same
    // end state as applying it once.
    let mut twice = SlintMouseControl::new();
    twice.enable_unbounded_movement(true);
    twice.enable_unbounded_movement(true);

    let mut once = SlintMouseControl::new();
    once.enable_unbounded_movement(true);

    assert_eq!(twice.take_request(), once.take_request());
    // Both slots are now clear.
    assert_eq!(twice.take_request(), None);
    assert_eq!(once.take_request(), None);
}

#[test]
fn enable_then_disable_results_in_disabled() {
    let mut control = SlintMouseControl::new();
    control.enable_unbounded_movement(true);
    control.disable_unbounded_movement();
    assert_eq!(control.take_request(), Some((false, false)));
}

#[test]
fn disable_then_enable_results_in_enabled() {
    let mut control = SlintMouseControl::new();
    control.disable_unbounded_movement();
    control.enable_unbounded_movement(false);
    assert_eq!(control.take_request(), Some((true, false)));
}

#[test]
fn is_unbounded_requested_reflects_the_slot() {
    let mut control = SlintMouseControl::new();
    control.enable_unbounded_movement(true);
    assert!(control.is_unbounded_requested());
    control.disable_unbounded_movement();
    assert!(!control.is_unbounded_requested());
}

#[test]
fn take_request_clears_the_slot() {
    let mut control = SlintMouseControl::new();
    control.enable_unbounded_movement(false);
    assert_eq!(control.take_request(), Some((true, false)));
    assert_eq!(control.take_request(), None);
    assert!(!control.is_unbounded_requested());
}

#[test]
fn restore_position_flag_rides_along() {
    let mut control = SlintMouseControl::new();
    control.enable_unbounded_movement(true);
    assert_eq!(control.take_request(), Some((true, true)));
    control.enable_unbounded_movement(false);
    assert_eq!(control.take_request(), Some((true, false)));
}
