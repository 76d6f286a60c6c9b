//! Native-handle adaptation across the two handle vocabularies.

use nih_plug_slint::{
    convert_display_handle, convert_window_handle, parent_to_host_handle, HandleError,
    HostDisplayHandle, HostWindowHandle, ParentWindowHandle, SurfaceDisplayHandle,
    SurfaceWindowHandle,
};

#[test]
fn x11_display_handles_convert() {
    assert_eq!(
        convert_display_handle(HostDisplayHandle::Xlib { display: 0xdead, screen: 1 }),
        Ok(SurfaceDisplayHandle::Xlib { display: Some(0xdead), screen: 1 })
    );
    assert_eq!(
        convert_display_handle(HostDisplayHandle::Xcb { connection: 0xbeef, screen: 0 }),
        Ok(SurfaceDisplayHandle::Xcb { connection: Some(0xbeef), screen: 0 })
    );
}

#[test]
fn null_display_pointers_become_none() {
    assert_eq!(
        convert_display_handle(HostDisplayHandle::Xlib { display: 0, screen: 2 }),
        Ok(SurfaceDisplayHandle::Xlib { display: None, screen: 2 })
    );
    assert_eq!(
        convert_display_handle(HostDisplayHandle::Xcb { connection: 0, screen: 3 }),
        Ok(SurfaceDisplayHandle::Xcb { connection: None, screen: 3 })
    );
}

#[test]
fn appkit_and_windows_display_handles_convert() {
    assert_eq!(
        convert_display_handle(HostDisplayHandle::AppKit),
        Ok(SurfaceDisplayHandle::AppKit)
    );
    assert_eq!(
        convert_display_handle(HostDisplayHandle::Windows),
        Ok(SurfaceDisplayHandle::Windows)
    );
}

#[test]
fn unsupported_display_tags_fail_explicitly() {
    assert_eq!(
        convert_display_handle(HostDisplayHandle::Unsupported),
        Err(HandleError::UnsupportedPlatform)
    );
}

#[test]
fn x11_window_handles_convert() {
    assert_eq!(
        convert_window_handle(HostWindowHandle::Xlib { window: 77 }),
        Ok(SurfaceWindowHandle::Xlib { window: 77 })
    );
    assert_eq!(
        convert_window_handle(HostWindowHandle::Xcb { window: 88 }),
        Ok(SurfaceWindowHandle::Xcb { window: 88 })
    );
}

#[test]
fn appkit_window_handles_convert_when_non_null() {
    assert_eq!(
        convert_window_handle(HostWindowHandle::AppKit { ns_view: 0x1000 }),
        Ok(SurfaceWindowHandle::AppKit { ns_view: 0x1000 })
    );
}

#[test]
fn win32_window_handles_convert_with_optional_hinstance() {
    assert_eq!(
        convert_window_handle(HostWindowHandle::Win32 { hwnd: 0x20, hinstance: 0x40 }),
        Ok(SurfaceWindowHandle::Win32 { hwnd: 0x20, hinstance: Some(0x40) })
    );
    assert_eq!(
        convert_window_handle(HostWindowHandle::Win32 { hwnd: 0x20, hinstance: 0 }),
        Ok(SurfaceWindowHandle::Win32 { hwnd: 0x20, hinstance: None })
    );
}

#[test]
fn null_required_window_pointers_fail() {
    assert_eq!(
        convert_window_handle(HostWindowHandle::AppKit { ns_view: 0 }),
        Err(HandleError::NullHandle)
    );
    assert_eq!(
        convert_window_handle(HostWindowHandle::Xcb { window: 0 }),
        Err(HandleError::NullHandle)
    );
    assert_eq!(
        convert_window_handle(HostWindowHandle::Win32 { hwnd: 0, hinstance: 5 }),
        Err(HandleError::NullHandle)
    );
}

#[test]
fn unsupported_window_tags_fail_explicitly() {
    assert_eq!(
        convert_window_handle(HostWindowHandle::Unsupported),
        Err(HandleError::UnsupportedPlatform)
    );
}

#[test]
fn parent_handles_map_onto_host_window_handles() {
    assert_eq!(
        parent_to_host_handle(ParentWindowHandle::X11Window(42)),
        HostWindowHandle::Xcb { window: 42 }
    );
    assert_eq!(
        parent_to_host_handle(ParentWindowHandle::AppKitNsView(0x2000)),
        HostWindowHandle::AppKit { ns_view: 0x2000 }
    );
    assert_eq!(
        parent_to_host_handle(ParentWindowHandle::Win32Hwnd(0x3000)),
        HostWindowHandle::Win32 { hwnd: 0x3000, hinstance: 0 }
    );
}

#[test]
fn parent_handle_round_trips_to_the_surface_vocabulary() {
    // The same matrix as the display/window tests, through both hops.
    let host = parent_to_host_handle(ParentWindowHandle::X11Window(9));
    assert_eq!(convert_window_handle(host), Ok(SurfaceWindowHandle::Xcb { window: 9 }));
    let host = parent_to_host_handle(ParentWindowHandle::AppKitNsView(0x88));
    assert_eq!(convert_window_handle(host), Ok(SurfaceWindowHandle::AppKit { ns_view: 0x88 }));
    let host = parent_to_host_handle(ParentWindowHandle::Win32Hwnd(0x99));
    assert_eq!(
        convert_window_handle(host),
        Ok(SurfaceWindowHandle::Win32 { hwnd: 0x99, hinstance: None })
    );
}
