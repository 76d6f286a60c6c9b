//! Adaptation between the two raw native-handle vocabularies in play: the
//! host window library hands out one generation of handle types, while the
//! surface-presentation library wants the next generation, which wraps its
//! pointers in non-null / non-zero types.
//!
//! Handles are modelled as their integer payloads. The conversion is a pure,
//! total function with an explicit failure outcome for a null handle or an
//! unsupported platform tag, instead of a crash.

use vstd::prelude::*;

verus! {

/// The parent window handle the plugin host passes in.
#[derive(Clone, Copy, Debug, PartialEq, Eq, Structural)]
pub enum ParentWindowHandle {
    X11Window(u32),
    AppKitNsView(usize),
    Win32Hwnd(isize),
}

/// A display handle as the host window library reports it, with raw
/// (possibly null) pointers carried as plain integers.
#[derive(Clone, Copy, Debug, PartialEq, Eq, Structural)]
pub enum HostDisplayHandle {
    AppKit,
    Xlib { display: usize, screen: i32 },
    Xcb { connection: usize, screen: i32 },
    Windows,
    /// Any platform tag the bridge does not support.
    Unsupported,
}

/// A window handle as the host window library reports it.
#[derive(Clone, Copy, Debug, PartialEq, Eq, Structural)]
pub enum HostWindowHandle {
    AppKit { ns_view: usize },
    Xlib { window: u64 },
    Xcb { window: u32 },
    Win32 { hwnd: isize, hinstance: isize },
    /// Any platform tag the bridge does not support.
    Unsupported,
}

/// A display handle in the surface library's vocabulary: nullable pointers
/// become options.
#[derive(Clone, Copy, Debug, PartialEq, Eq, Structural)]
pub enum SurfaceDisplayHandle {
    AppKit,
    Xlib { display: Option<usize>, screen: i32 },
    Xcb { connection: Option<usize>, screen: i32 },
    Windows,
}

/// A window handle in the surface library's vocabulary: the pointers that
/// must not be null are plain integers known to be non-zero.
#[derive(Clone, Copy, Debug, PartialEq, Eq, Structural)]
pub enum SurfaceWindowHandle {
    AppKit { ns_view: usize },
    Xlib { window: u64 },
    Xcb { window: u32 },
    Win32 { hwnd: isize, hinstance: Option<isize> },
}

/// Why a handle could not be adapted.
#[derive(Clone, Copy, Debug, PartialEq, Eq, Structural)]
pub enum HandleError {
    /// A handle that the surface library requires to be non-null was null.
    NullHandle,
    /// The platform tag has no counterpart in the surface library.
    UnsupportedPlatform,
}

/// The surface display handle a host display handle converts to, or the
/// error. Null display pointers are representable on the surface side, so
/// only an unsupported platform tag fails.
pub open spec fn converted_display_handle(handle: HostDisplayHandle) -> Result<
    SurfaceDisplayHandle,
    HandleError,
> {
    match handle {
        HostDisplayHandle::AppKit => Ok(SurfaceDisplayHandle::AppKit),
        HostDisplayHandle::Xlib { display, screen } => (Ok(
            SurfaceDisplayHandle::Xlib {
                display: if display == 0 {
                    None
                } else {
                    Some(display)
                },
                screen,
            },
        )),
        HostDisplayHandle::Xcb { connection, screen } => (Ok(
            SurfaceDisplayHandle::Xcb {
                connection: if connection == 0 {
                    None
                } else {
                    Some(connection)
                },
                screen,
            },
        )),
        HostDisplayHandle::Windows => Ok(SurfaceDisplayHandle::Windows),
        HostDisplayHandle::Unsupported => Err(HandleError::UnsupportedPlatform),
    }
}

/// The surface window handle a host window handle converts to, or the
/// error: a null required pointer or an unsupported platform tag.
pub open spec fn converted_window_handle(handle: HostWindowHandle) -> Result<
    SurfaceWindowHandle,
    HandleError,
> {
    match handle {
        HostWindowHandle::AppKit { ns_view } => {
            if ns_view == 0 {
                Err(HandleError::NullHandle)
            } else {
                Ok(SurfaceWindowHandle::AppKit { ns_view })
            }
        },
        HostWindowHandle::Xlib { window } => Ok(SurfaceWindowHandle::Xlib { window }),
        HostWindowHandle::Xcb { window } => {
            if window == 0 {
                Err(HandleError::NullHandle)
            } else {
                Ok(SurfaceWindowHandle::Xcb { window })
            }
        },
        HostWindowHandle::Win32 { hwnd, hinstance } => {
            if hwnd == 0 {
                Err(HandleError::NullHandle)
            } else {
                Ok(
                    SurfaceWindowHandle::Win32 {
                        hwnd,
                        hinstance: if hinstance == 0 {
                            None
                        } else {
                            Some(hinstance)
                        },
                    },
                )
            }
        },
        HostWindowHandle::Unsupported => Err(HandleError::UnsupportedPlatform),
    }
}

/// The host window handle a parent handle from the plugin host stands for.
pub open spec fn parent_as_host_handle(parent: ParentWindowHandle) -> HostWindowHandle {
    match parent {
        ParentWindowHandle::X11Window(window) => HostWindowHandle::Xcb { window },
        ParentWindowHandle::AppKitNsView(ns_view) => HostWindowHandle::AppKit { ns_view },
        ParentWindowHandle::Win32Hwnd(hwnd) => HostWindowHandle::Win32 { hwnd, hinstance: 0 },
    }
}

/// Adapt a display handle to the surface library's vocabulary. Fails
/// exactly on an unsupported platform tag.
pub fn convert_display_handle(handle: HostDisplayHandle) -> (r: Result<
    SurfaceDisplayHandle,
    HandleError,
>)
    ensures
        r == converted_display_handle(handle),
        r is Ok <==> !(handle is Unsupported),
{
    match handle {
        HostDisplayHandle::AppKit => Ok(SurfaceDisplayHandle::AppKit),
        HostDisplayHandle::Xlib { display, screen } => Ok(
            SurfaceDisplayHandle::Xlib {
                display: if display == 0 {
                    None
                } else {
                    Some(display)
                },
                screen,
            },
        ),
        HostDisplayHandle::Xcb { connection, screen } => Ok(
            SurfaceDisplayHandle::Xcb {
                connection: if connection == 0 {
                    None
                } else {
                    Some(connection)
                },
                screen,
            },
        ),
        HostDisplayHandle::Windows => Ok(SurfaceDisplayHandle::Windows),
        HostDisplayHandle::Unsupported => Err(HandleError::UnsupportedPlatform),
    }
}

/// Adapt a window handle to the surface library's vocabulary. Fails exactly
/// on an unsupported platform tag, or when a pointer the surface library
/// requires to be non-null is null.
pub fn convert_window_handle(handle: HostWindowHandle) -> (r: Result<
    SurfaceWindowHandle,
    HandleError,
>)
    ensures
        r == converted_window_handle(handle),
{
    match handle {
        HostWindowHandle::AppKit { ns_view } => {
            if ns_view == 0 {
                Err(HandleError::NullHandle)
            } else {
                Ok(SurfaceWindowHandle::AppKit { ns_view })
            }
        },
        HostWindowHandle::Xlib { window } => Ok(SurfaceWindowHandle::Xlib { window }),
        HostWindowHandle::Xcb { window } => {
            if window == 0 {
                Err(HandleError::NullHandle)
            } else {
                Ok(SurfaceWindowHandle::Xcb { window })
            }
        },
        HostWindowHandle::Win32 { hwnd, hinstance } => {
            if hwnd == 0 {
                Err(HandleError::NullHandle)
            } else {
                Ok(
                    SurfaceWindowHandle::Win32 {
                        hwnd,
                        hinstance: if hinstance == 0 {
                            None
                        } else {
                            Some(hinstance)
                        },
                    },
                )
            }
        },
        HostWindowHandle::Unsupported => Err(HandleError::UnsupportedPlatform),
    }
}

/// Express the parent handle the plugin host passes in as a host window
/// handle. Every parent handle variant is supported.
pub fn parent_to_host_handle(parent: ParentWindowHandle) -> (r: HostWindowHandle)
    ensures
        r == parent_as_host_handle(parent),
{
    match parent {
        ParentWindowHandle::X11Window(window) => HostWindowHandle::Xcb { window },
        ParentWindowHandle::AppKitNsView(ns_view) => HostWindowHandle::AppKit { ns_view },
        ParentWindowHandle::Win32Hwnd(hwnd) => HostWindowHandle::Win32 { hwnd, hinstance: 0 },
    }
}

} // verus!
