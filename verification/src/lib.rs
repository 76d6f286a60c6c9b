//! A software-rendered plugin-editor window bridge.
//!
//! The crate models the seam between a host-provided native window and a
//! retained-mode UI runtime: translating host input events into the runtime's
//! event vocabulary, keeping three notions of window geometry consistent
//! across resizes and DPI changes, compositing the runtime's pixels into the
//! host surface's packed format, and mediating a cross-thread cursor-mode
//! mailbox used by drag-style controls.
//!
//! Scale factors and pointer coordinates are carried as fixed-point integers
//! in thousandths (milli-units), so that every geometry computation has an
//! exact, verifiable meaning.

mod bridge;
mod compositor;
mod editor;
mod events;
mod geometry;
mod handles;
mod mailbox;

pub use bridge::{BridgeAction, EventStatus, SlintWindowHandler};
pub use compositor::{pack_pixel, FrameCompositor, Rgb8Pixel};
pub use editor::SlintEditor;
pub use events::{
    translate_event, HostEvent, HostKey, HostKeyState, HostKeyboardEvent, HostMouseButton,
    HostMouseEvent, HostScrollDelta, HostWindowEvent, HostWindowInfo, PointMilli, PointerButton,
    UiEvent,
};
pub use geometry::{scale_dimension, SlintState};
pub use handles::{
    convert_display_handle, convert_window_handle, parent_to_host_handle, HandleError,
    HostDisplayHandle, HostWindowHandle, ParentWindowHandle, SurfaceDisplayHandle,
    SurfaceWindowHandle,
};
pub use mailbox::{CursorRequest, SlintMouseControl};
