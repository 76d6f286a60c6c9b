//! The event translator: maps each host window-system event to the UI
//! runtime's event vocabulary, or to nothing.
//!
//! Host events arrive with positions and scroll deltas in logical
//! milli-pixels (thousandths of a pixel) and scale factors in milli-units.
//! Each host event maps to at most one UI event; events the runtime has no
//! counterpart for (drag-and-drop) map to nothing and are dropped.

use vstd::prelude::*;

verus! {

/// A position in logical coordinates, in milli-pixels.
#[derive(Clone, Copy, Debug, PartialEq, Eq, Structural)]
pub struct PointMilli {
    pub x: i64,
    pub y: i64,
}

/// Largest coordinate magnitude (in milli-pixels) that scaling arithmetic
/// can handle without overflowing an `i64`.
pub const COORD_LIMIT_MILLI: i64 = 9_223_372_036_854_775;

/// Largest scroll-line magnitude (in milli-lines) that the lines-to-pixels
/// conversion can handle without overflowing an `i64`.
pub const LINE_LIMIT_MILLI: i64 = 461_168_601_842_738_790;

/// Pixels of scroll per wheel line: a fixed multiplier.
pub const PIXELS_PER_LINE: i64 = 20;

/// A mouse button as the host reports it.
#[derive(Clone, Copy, Debug, PartialEq, Eq, Structural)]
pub enum HostMouseButton {
    Left,
    Right,
    Middle,
    Back,
    Forward,
    Other(u8),
}

/// A wheel scroll amount: whole lines or pixels, in milli-units.
#[derive(Clone, Copy, Debug, PartialEq, Eq, Structural)]
pub enum HostScrollDelta {
    Lines { x: i64, y: i64 },
    Pixels { x: i64, y: i64 },
}

/// A mouse event as the host reports it. Button and wheel events carry no
/// position; the bridge back-fills one from its cache after translation.
#[derive(Clone, Copy, Debug, PartialEq, Eq, Structural)]
pub enum HostMouseEvent {
    CursorMoved { position: PointMilli },
    ButtonPressed { button: HostMouseButton },
    ButtonReleased { button: HostMouseButton },
    WheelScrolled { delta: HostScrollDelta },
    CursorEntered,
    CursorLeft,
    DragEntered,
    DragMoved,
    DragLeft,
    DragDropped,
}

/// A key as the host reports it: either a printable character sequence or a
/// named key. Named keys that produce no text are collapsed into `Other`.
#[derive(Clone, Debug, PartialEq, Eq)]
pub enum HostKey {
    Character(String),
    Enter,
    Tab,
    Backspace,
    Delete,
    Escape,
    ArrowUp,
    ArrowDown,
    ArrowLeft,
    ArrowRight,
    Home,
    End,
    PageUp,
    PageDown,
    Other,
}

/// Whether a key went down or up.
#[derive(Clone, Copy, Debug, PartialEq, Eq, Structural)]
pub enum HostKeyState {
    Down,
    Up,
}

/// A keyboard event as the host reports it.
#[derive(Clone, Debug, PartialEq, Eq)]
pub struct HostKeyboardEvent {
    pub state: HostKeyState,
    pub key: HostKey,
}

/// What the host reports alongside a resize: the new logical size, the new
/// physical size, and the authoritative scale factor.
#[derive(Clone, Copy, Debug, PartialEq, Eq, Structural)]
pub struct HostWindowInfo {
    pub logical_width_milli: u64,
    pub logical_height_milli: u64,
    pub physical_width: u32,
    pub physical_height: u32,
    pub scale_milli: u32,
}

/// A window event as the host reports it.
#[derive(Clone, Copy, Debug, PartialEq, Eq, Structural)]
pub enum HostWindowEvent {
    Resized(HostWindowInfo),
    Focused,
    Unfocused,
    WillClose,
}

/// Any event the host can deliver.
#[derive(Clone, Debug, PartialEq, Eq)]
pub enum HostEvent {
    Mouse(HostMouseEvent),
    Keyboard(HostKeyboardEvent),
    Window(HostWindowEvent),
}

/// A pointer button in the UI runtime's vocabulary.
#[derive(Clone, Copy, Debug, PartialEq, Eq, Structural)]
pub enum PointerButton {
    Left,
    Right,
    Middle,
    Other,
}

/// An event in the UI runtime's vocabulary.
#[derive(Clone, Debug, PartialEq, Eq)]
pub enum UiEvent {
    PointerMoved { position: PointMilli },
    PointerPressed { position: PointMilli, button: PointerButton },
    PointerReleased { position: PointMilli, button: PointerButton },
    PointerScrolled { position: PointMilli, delta_x_milli: i64, delta_y_milli: i64 },
    PointerExited,
    KeyPressed { text: String },
    KeyReleased { text: String },
    Resized { logical_width_milli: u64, logical_height_milli: u64 },
    ScaleFactorChanged { scale_milli: u32 },
    WindowActiveChanged { active: bool },
    CloseRequested,
}

/// The mathematical shape of a UI event: as `UiEvent`, but with key text as
/// a sequence of characters.
pub enum UiEventModel {
    PointerMoved { position: PointMilli },
    PointerPressed { position: PointMilli, button: PointerButton },
    PointerReleased { position: PointMilli, button: PointerButton },
    PointerScrolled { position: PointMilli, delta_x_milli: i64, delta_y_milli: i64 },
    PointerExited,
    KeyPressed { text: Seq<char> },
    KeyReleased { text: Seq<char> },
    Resized { logical_width_milli: u64, logical_height_milli: u64 },
    ScaleFactorChanged { scale_milli: u32 },
    WindowActiveChanged { active: bool },
    CloseRequested,
}

impl View for UiEvent {
    type V = UiEventModel;

    open spec fn view(&self) -> UiEventModel {
        match self {
            UiEvent::PointerMoved { position } => (UiEventModel::PointerMoved {
                position: *position,
            }),
            UiEvent::PointerPressed { position, button } => (UiEventModel::PointerPressed {
                position: *position,
                button: *button,
            }),
            UiEvent::PointerReleased { position, button } => (UiEventModel::PointerReleased {
                position: *position,
                button: *button,
            }),
            UiEvent::PointerScrolled { position, delta_x_milli, delta_y_milli } => (
            UiEventModel::PointerScrolled {
                position: *position,
                delta_x_milli: *delta_x_milli,
                delta_y_milli: *delta_y_milli,
            }),
            UiEvent::PointerExited => UiEventModel::PointerExited,
            UiEvent::KeyPressed { text } => (UiEventModel::KeyPressed { text: text@ }),
            UiEvent::KeyReleased { text } => (UiEventModel::KeyReleased { text: text@ }),
            UiEvent::Resized { logical_width_milli, logical_height_milli } => (
            UiEventModel::Resized {
                logical_width_milli: *logical_width_milli,
                logical_height_milli: *logical_height_milli,
            }),
            UiEvent::ScaleFactorChanged { scale_milli } => (UiEventModel::ScaleFactorChanged {
                scale_milli: *scale_milli,
            }),
            UiEvent::WindowActiveChanged { active } => (UiEventModel::WindowActiveChanged {
                active: *active,
            }),
            UiEvent::CloseRequested => UiEventModel::CloseRequested,
        }
    }
}

/// The model of an optional UI event.
pub open spec fn opt_event_view(r: Option<UiEvent>) -> Option<UiEventModel> {
    match r {
        Some(event) => Some(event@),
        None => None,
    }
}

/// Division of a milli-pixel coordinate by a milli-unit scale factor,
/// truncating toward zero as the executable arithmetic does.
pub open spec fn descaled_coord(x: int, scale_milli: int) -> int
    recommends
        scale_milli > 0,
{
    if x >= 0 {
        (x * 1000) / scale_milli
    } else {
        -((-x * 1000) / scale_milli)
    }
}

/// Divide a coordinate by the scale factor, converting a physical
/// milli-pixel coordinate into a logical one.
pub fn descale_coord(x: i64, scale_milli: u32) -> (r: i64)
    requires
        scale_milli >= 1,
        -COORD_LIMIT_MILLI <= x <= COORD_LIMIT_MILLI,
    ensures
        r == descaled_coord(x as int, scale_milli as int),
{
    let s = scale_milli as i64;
    if x >= 0 {
        (x * 1000) / s
    } else {
        -((-x * 1000) / s)
    }
}

/// The bounds under which event translation arithmetic cannot overflow.
pub open spec fn event_in_range(event: HostEvent) -> bool {
    match event {
        HostEvent::Mouse(mouse_event) => match mouse_event {
            HostMouseEvent::CursorMoved { position } => {
                &&& -COORD_LIMIT_MILLI <= position.x <= COORD_LIMIT_MILLI
                &&& -COORD_LIMIT_MILLI <= position.y <= COORD_LIMIT_MILLI
            },
            HostMouseEvent::WheelScrolled { delta } => match delta {
                HostScrollDelta::Lines { x, y } => {
                    &&& -LINE_LIMIT_MILLI <= x <= LINE_LIMIT_MILLI
                    &&& -LINE_LIMIT_MILLI <= y <= LINE_LIMIT_MILLI
                },
                HostScrollDelta::Pixels { x, y } => true,
            },
            _ => true,
        },
        _ => true,
    }
}

/// The text a key produces: printable characters map to themselves, editing
/// keys to their control characters, and navigation keys to no text at all
/// (which the UI runtime must treat as "no character").
pub open spec fn key_text(key: HostKey) -> Seq<char> {
    match key {
        HostKey::Character(s) => s@,
        HostKey::Enter => seq!['\n'],
        HostKey::Tab => seq!['\t'],
        HostKey::Backspace => seq!['\u{0008}'],
        HostKey::Delete => seq!['\u{007f}'],
        HostKey::Escape => seq!['\u{001b}'],
        _ => Seq::<char>::empty(),
    }
}

/// The UI pointer button a host button maps to, if any.
pub open spec fn translated_button(button: HostMouseButton) -> Option<PointerButton> {
    match button {
        HostMouseButton::Left => Some(PointerButton::Left),
        HostMouseButton::Right => Some(PointerButton::Right),
        HostMouseButton::Middle => Some(PointerButton::Middle),
        HostMouseButton::Back => Some(PointerButton::Other),
        HostMouseButton::Forward => Some(PointerButton::Other),
        HostMouseButton::Other(code) => Some(PointerButton::Other),
    }
}

/// The UI event a host mouse event maps to, if any. Button and wheel events
/// get the origin as a placeholder position; the bridge back-fills the real
/// one. Drag-and-drop events have no counterpart and map to nothing.
pub open spec fn translated_mouse_event(
    event: HostMouseEvent,
    scale_milli: u32,
) -> Option<UiEventModel> {
    match event {
        HostMouseEvent::CursorMoved { position } => (Some(
            UiEventModel::PointerMoved {
                position: PointMilli {
                    x: descaled_coord(position.x as int, scale_milli as int) as i64,
                    y: descaled_coord(position.y as int, scale_milli as int) as i64,
                },
            },
        )),
        HostMouseEvent::ButtonPressed { button } => match translated_button(button) {
            Some(ui_button) => (Some(
                UiEventModel::PointerPressed {
                    position: PointMilli { x: 0, y: 0 },
                    button: ui_button,
                },
            )),
            None => None,
        },
        HostMouseEvent::ButtonReleased { button } => match translated_button(button) {
            Some(ui_button) => (Some(
                UiEventModel::PointerReleased {
                    position: PointMilli { x: 0, y: 0 },
                    button: ui_button,
                },
            )),
            None => None,
        },
        HostMouseEvent::WheelScrolled { delta } => match delta {
            HostScrollDelta::Lines { x, y } => (Some(
                UiEventModel::PointerScrolled {
                    position: PointMilli { x: 0, y: 0 },
                    delta_x_milli: (x * PIXELS_PER_LINE) as i64,
                    delta_y_milli: (y * PIXELS_PER_LINE) as i64,
                },
            )),
            HostScrollDelta::Pixels { x, y } => (Some(
                UiEventModel::PointerScrolled {
                    position: PointMilli { x: 0, y: 0 },
                    delta_x_milli: x,
                    delta_y_milli: y,
                },
            )),
        },
        HostMouseEvent::CursorEntered => (Some(
            UiEventModel::PointerMoved { position: PointMilli { x: 0, y: 0 } },
        )),
        HostMouseEvent::CursorLeft => Some(UiEventModel::PointerExited),
        HostMouseEvent::DragEntered => None,
        HostMouseEvent::DragMoved => None,
        HostMouseEvent::DragLeft => None,
        HostMouseEvent::DragDropped => None,
    }
}

/// The UI event a host keyboard event maps to.
pub open spec fn translated_keyboard_event(event: HostKeyboardEvent) -> Option<UiEventModel> {
    match event.state {
        HostKeyState::Down => Some(UiEventModel::KeyPressed { text: key_text(event.key) }),
        HostKeyState::Up => Some(UiEventModel::KeyReleased { text: key_text(event.key) }),
    }
}

/// The UI event a host window event maps to.
pub open spec fn translated_window_event(event: HostWindowEvent) -> Option<UiEventModel> {
    match event {
        HostWindowEvent::Resized(info) => (Some(
            UiEventModel::Resized {
                logical_width_milli: info.logical_width_milli,
                logical_height_milli: info.logical_height_milli,
            },
        )),
        HostWindowEvent::Focused => Some(UiEventModel::WindowActiveChanged { active: true }),
        HostWindowEvent::Unfocused => Some(UiEventModel::WindowActiveChanged { active: false }),
        HostWindowEvent::WillClose => Some(UiEventModel::CloseRequested),
    }
}

/// The UI event a host event maps to, if any.
pub open spec fn translated_event(event: HostEvent, scale_milli: u32) -> Option<UiEventModel> {
    match event {
        HostEvent::Mouse(mouse_event) => translated_mouse_event(mouse_event, scale_milli),
        HostEvent::Keyboard(keyboard_event) => translated_keyboard_event(keyboard_event),
        HostEvent::Window(window_event) => translated_window_event(window_event),
    }
}

/// The text a key produces, as an owned string.
pub fn key_to_text(key: &HostKey) -> (text: String)
    ensures
        text@ == key_text(*key),
{
    match key {
        HostKey::Character(s) => s.clone(),
        HostKey::Enter => {
            let text = "\n".to_owned();
            proof {
                reveal_strlit("\n");
                assert(text@ =~= seq!['\n']);
            }
            text
        },
        HostKey::Tab => {
            let text = "\t".to_owned();
            proof {
                reveal_strlit("\t");
                assert(text@ =~= seq!['\t']);
            }
            text
        },
        HostKey::Backspace => {
            let text = "\u{0008}".to_owned();
            proof {
                reveal_strlit("\u{0008}");
                assert(text@ =~= seq!['\u{0008}']);
            }
            text
        },
        HostKey::Delete => {
            let text = "\u{007f}".to_owned();
            proof {
                reveal_strlit("\u{007f}");
                assert(text@ =~= seq!['\u{007f}']);
            }
            text
        },
        HostKey::Escape => {
            let text = "\u{001b}".to_owned();
            proof {
                reveal_strlit("\u{001b}");
                assert(text@ =~= seq!['\u{001b}']);
            }
            text
        },
        _ => {
            let text = String::new();
            proof {
                assert(text@ =~= Seq::<char>::empty());
            }
            text
        },
    }
}

/// The UI pointer button a host button maps to.
pub fn translate_mouse_button(button: HostMouseButton) -> (r: Option<PointerButton>)
    ensures
        r == translated_button(button),
{
    match button {
        HostMouseButton::Left => Some(PointerButton::Left),
        HostMouseButton::Right => Some(PointerButton::Right),
        HostMouseButton::Middle => Some(PointerButton::Middle),
        HostMouseButton::Back => Some(PointerButton::Other),
        HostMouseButton::Forward => Some(PointerButton::Other),
        HostMouseButton::Other(_) => Some(PointerButton::Other),
    }
}

fn translate_mouse_event(event: &HostMouseEvent, scale_milli: u32) -> (r: Option<UiEvent>)
    requires
        scale_milli >= 1,
        event_in_range(HostEvent::Mouse(*event)),
    ensures
        opt_event_view(r) == translated_mouse_event(*event, scale_milli),
{
    match event {
        HostMouseEvent::CursorMoved { position } => Some(
            UiEvent::PointerMoved {
                position: PointMilli {
                    x: descale_coord(position.x, scale_milli),
                    y: descale_coord(position.y, scale_milli),
                },
            },
        ),
        HostMouseEvent::ButtonPressed { button } => match translate_mouse_button(*button) {
            Some(ui_button) => Some(
                UiEvent::PointerPressed {
                    position: PointMilli { x: 0, y: 0 },
                    button: ui_button,
                },
            ),
            None => None,
        },
        HostMouseEvent::ButtonReleased { button } => match translate_mouse_button(*button) {
            Some(ui_button) => Some(
                UiEvent::PointerReleased {
                    position: PointMilli { x: 0, y: 0 },
                    button: ui_button,
                },
            ),
            None => None,
        },
        HostMouseEvent::WheelScrolled { delta } => {
            let (delta_x_milli, delta_y_milli): (i64, i64) = match delta {
                HostScrollDelta::Lines { x, y } => (*x * PIXELS_PER_LINE, *y * PIXELS_PER_LINE),
                HostScrollDelta::Pixels { x, y } => (*x, *y),
            };
            Some(
                UiEvent::PointerScrolled {
                    position: PointMilli { x: 0, y: 0 },
                    delta_x_milli,
                    delta_y_milli,
                },
            )
        },
        HostMouseEvent::CursorEntered => Some(
            UiEvent::PointerMoved { position: PointMilli { x: 0, y: 0 } },
        ),
        HostMouseEvent::CursorLeft => Some(UiEvent::PointerExited),
        HostMouseEvent::DragEntered => None,
        HostMouseEvent::DragMoved => None,
        HostMouseEvent::DragLeft => None,
        HostMouseEvent::DragDropped => None,
    }
}

fn translate_keyboard_event(event: &HostKeyboardEvent) -> (r: Option<UiEvent>)
    ensures
        opt_event_view(r) == translated_keyboard_event(*event),
{
    let text = key_to_text(&event.key);
    match event.state {
        HostKeyState::Down => Some(UiEvent::KeyPressed { text }),
        HostKeyState::Up => Some(UiEvent::KeyReleased { text }),
    }
}

fn translate_window_event(event: &HostWindowEvent) -> (r: Option<UiEvent>)
    ensures
        opt_event_view(r) == translated_window_event(*event),
{
    match event {
        HostWindowEvent::Resized(info) => Some(
            UiEvent::Resized {
                logical_width_milli: info.logical_width_milli,
                logical_height_milli: info.logical_height_milli,
            },
        ),
        HostWindowEvent::Focused => Some(UiEvent::WindowActiveChanged { active: true }),
        HostWindowEvent::Unfocused => Some(UiEvent::WindowActiveChanged { active: false }),
        HostWindowEvent::WillClose => Some(UiEvent::CloseRequested),
    }
}

/// Translate a host event to the UI runtime's vocabulary. Returns `None`
/// exactly when the event has no counterpart there.
pub fn translate_event(event: &HostEvent, scale_milli: u32) -> (r: Option<UiEvent>)
    requires
        scale_milli >= 1,
        event_in_range(*event),
    ensures
        opt_event_view(r) == translated_event(*event, scale_milli),
{
    match event {
        HostEvent::Mouse(mouse_event) => translate_mouse_event(mouse_event, scale_milli),
        HostEvent::Keyboard(keyboard_event) => translate_keyboard_event(keyboard_event),
        HostEvent::Window(window_event) => translate_window_event(window_event),
    }
}

/// Drag-and-drop host events always translate to "no mapping": they are
/// dropped, for every drag sub-variant and every scale factor.
pub proof fn lemma_drag_events_never_translate(event: HostMouseEvent, scale_milli: u32)
    requires
        event is DragEntered || event is DragMoved || event is DragLeft || event is DragDropped,
    ensures
        translated_event(HostEvent::Mouse(event), scale_milli) is None,
{
}

} // verus!
