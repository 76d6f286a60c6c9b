//! The event translator: the mapping table from host events to UI events.

use nih_plug_slint::{
    translate_event, HostEvent, HostKey, HostKeyState, HostKeyboardEvent, HostMouseButton,
    HostMouseEvent, HostScrollDelta, HostWindowEvent, HostWindowInfo, PointMilli, PointerButton,
    UiEvent,
};

fn mouse(event: HostMouseEvent) -> HostEvent {
    HostEvent::Mouse(event)
}

#[test]
fn wheel_lines_convert_at_twenty_pixels_per_line() {
    // Lines { x: 1, y: -2 } becomes scrolled(dx = 20.0, dy = -40.0): in
    // milli-pixels, 1000 milli-lines become 20000 and -2000 become -40000.
    let event = mouse(HostMouseEvent::WheelScrolled {
        delta: HostScrollDelta::Lines { x: 1000, y: -2000 },
    });
    let translated = translate_event(&event, 1000);
    assert_eq!(
        translated,
        Some(UiEvent::PointerScrolled {
            position: PointMilli { x: 0, y: 0 },
            delta_x_milli: 20_000,
            delta_y_milli: -40_000,
        })
    );
}

#[test]
fn wheel_pixels_pass_through_unscaled() {
    let event = mouse(HostMouseEvent::WheelScrolled {
        delta: HostScrollDelta::Pixels { x: 3500, y: -1250 },
    });
    let translated = translate_event(&event, 2000);
    assert_eq!(
        translated,
        Some(UiEvent::PointerScrolled {
            position: PointMilli { x: 0, y: 0 },
            delta_x_milli: 3500,
            delta_y_milli: -1250,
        })
    );
}

#[test]
fn cursor_moved_divides_by_the_scale_factor() {
    let event = mouse(HostMouseEvent::CursorMoved {
        position: PointMilli { x: 42_000, y: 17_000 },
    });
    assert_eq!(
        translate_event(&event, 1000),
        Some(UiEvent::PointerMoved { position: PointMilli { x: 42_000, y: 17_000 } })
    );
    assert_eq!(
        translate_event(&event, 2000),
        Some(UiEvent::PointerMoved { position: PointMilli { x: 21_000, y: 8_500 } })
    );
}

#[test]
fn cursor_entered_maps_to_a_move_to_the_default_position() {
    let event = mouse(HostMouseEvent::CursorEntered);
    assert_eq!(
        translate_event(&event, 1000),
        Some(UiEvent::PointerMoved { position: PointMilli { x: 0, y: 0 } })
    );
}

#[test]
fn cursor_left_maps_to_pointer_exited() {
    let event = mouse(HostMouseEvent::CursorLeft);
    assert_eq!(translate_event(&event, 1000), Some(UiEvent::PointerExited));
}

#[test]
fn drag_events_are_always_dropped() {
    // Every drag sub-variant translates to "no mapping".
    for event in [
        HostMouseEvent::DragEntered,
        HostMouseEvent::DragMoved,
        HostMouseEvent::DragLeft,
        HostMouseEvent::DragDropped,
    ] {
        assert_eq!(translate_event(&mouse(event), 1000), None);
        assert_eq!(translate_event(&mouse(event), 2000), None);
    }
}

#[test]
fn buttons_map_to_their_ui_counterparts() {
    let cases = [
        (HostMouseButton::Left, PointerButton::Left),
        (HostMouseButton::Right, PointerButton::Right),
        (HostMouseButton::Middle, PointerButton::Middle),
        (HostMouseButton::Back, PointerButton::Other),
        (HostMouseButton::Forward, PointerButton::Other),
        (HostMouseButton::Other(7), PointerButton::Other),
    ];
    for (host_button, ui_button) in cases {
        let event = mouse(HostMouseEvent::ButtonPressed { button: host_button });
        assert_eq!(
            translate_event(&event, 1000),
            Some(UiEvent::PointerPressed {
                position: PointMilli { x: 0, y: 0 },
                button: ui_button,
            })
        );
    }
}

#[test]
fn button_released_carries_the_placeholder_position() {
    let event = mouse(HostMouseEvent::ButtonReleased { button: HostMouseButton::Left });
    assert_eq!(
        translate_event(&event, 1000),
        Some(UiEvent::PointerReleased {
            position: PointMilli { x: 0, y: 0 },
            button: PointerButton::Left,
        })
    );
}

#[test]
fn printable_keys_produce_their_text() {
    let event = HostEvent::Keyboard(HostKeyboardEvent {
        state: HostKeyState::Down,
        key: HostKey::Character("a".to_string()),
    });
    assert_eq!(
        translate_event(&event, 1000),
        Some(UiEvent::KeyPressed { text: "a".to_string() })
    );
}

#[test]
fn editing_keys_produce_control_characters() {
    let cases = [
        (HostKey::Enter, "\n"),
        (HostKey::Tab, "\t"),
        (HostKey::Backspace, "\u{0008}"),
        (HostKey::Delete, "\u{007f}"),
        (HostKey::Escape, "\u{001b}"),
    ];
    for (key, text) in cases {
        let event = HostEvent::Keyboard(HostKeyboardEvent { state: HostKeyState::Down, key });
        assert_eq!(
            translate_event(&event, 1000),
            Some(UiEvent::KeyPressed { text: text.to_string() })
        );
    }
}

#[test]
fn navigation_keys_produce_empty_text() {
    // Non-printable navigation keys map to empty text, which the UI runtime
    // must treat as "no character".
    let keys = [
        HostKey::ArrowUp,
        HostKey::ArrowDown,
        HostKey::ArrowLeft,
        HostKey::ArrowRight,
        HostKey::Home,
        HostKey::End,
        HostKey::PageUp,
        HostKey::PageDown,
        HostKey::Other,
    ];
    for key in keys {
        let event = HostEvent::Keyboard(HostKeyboardEvent { state: HostKeyState::Down, key });
        assert_eq!(
            translate_event(&event, 1000),
            Some(UiEvent::KeyPressed { text: String::new() })
        );
    }
}

#[test]
fn key_up_maps_to_key_released() {
    let event = HostEvent::Keyboard(HostKeyboardEvent {
        state: HostKeyState::Up,
        key: HostKey::Character("z".to_string()),
    });
    assert_eq!(
        translate_event(&event, 1000),
        Some(UiEvent::KeyReleased { text: "z".to_string() })
    );
}

#[test]
fn focus_events_map_to_active_changes() {
    assert_eq!(
        translate_event(&HostEvent::Window(HostWindowEvent::Focused), 1000),
        Some(UiEvent::WindowActiveChanged { active: true })
    );
    assert_eq!(
        translate_event(&HostEvent::Window(HostWindowEvent::Unfocused), 1000),
        Some(UiEvent::WindowActiveChanged { active: false })
    );
}

#[test]
fn will_close_maps_to_close_requested() {
    assert_eq!(
        translate_event(&HostEvent::Window(HostWindowEvent::WillClose), 1000),
        Some(UiEvent::CloseRequested)
    );
}

#[test]
fn resize_translates_to_the_logical_size() {
    let info = HostWindowInfo {
        logical_width_milli: 300_000,
        logical_height_milli: 200_000,
        physical_width: 600,
        physical_height: 400,
        scale_milli: 2000,
    };
    assert_eq!(
        translate_event(&HostEvent::Window(HostWindowEvent::Resized(info)), 1000),
        Some(UiEvent::Resized { logical_width_milli: 300_000, logical_height_milli: 200_000 })
    );
}

#[test]
fn negative_coordinates_divide_toward_zero() {
    let event = mouse(HostMouseEvent::CursorMoved {
        position: PointMilli { x: -3000, y: -4500 },
    });
    assert_eq!(
        translate_event(&event, 2000),
        Some(UiEvent::PointerMoved { position: PointMilli { x: -1500, y: -2250 } })
    );
}
