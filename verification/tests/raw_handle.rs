use std::num::{NonZeroIsize, NonZeroU32};
use std::ptr::NonNull;

use embedded_window::{
    AnyWindowHandle, AttachError, AttachStep, NativeCall, NativeWindowHandle, WindowCreationInfo,
    WindowOptions, WindowsWindow,
};
use raw_window_handle::{
    AppKitWindowHandle, RawWindowHandle, WaylandWindowHandle, WebWindowHandle, Win32WindowHandle,
    XcbWindowHandle, XlibWindowHandle,
};

fn creation_info() -> WindowCreationInfo {
    WindowCreationInfo {
        validation_number: 1,
        platform_window_handle: 2,
        disable_direct_composition: false,
    }
}

#[test]
fn raw_win32_handle_reads_as_its_hwnd() {
    let raw = RawWindowHandle::Win32(Win32WindowHandle::new(NonZeroIsize::new(0x4d2).unwrap()));
    let options = WindowOptions::for_raw_window_handle(&raw);
    assert_eq!(options.raw_window_handle, Some(NativeWindowHandle::Win32 { hwnd: 0x4d2 }));
    assert_eq!(
        options,
        WindowOptions::for_embedded_window(NativeWindowHandle::Win32 { hwnd: 0x4d2 })
    );
}

#[test]
fn raw_win32_handle_keeps_negative_values() {
    let raw = RawWindowHandle::Win32(Win32WindowHandle::new(NonZeroIsize::new(-7).unwrap()));
    let options = WindowOptions::for_raw_window_handle(&raw);
    assert_eq!(options.raw_window_handle, Some(NativeWindowHandle::Win32 { hwnd: -7 }));
}

#[test]
fn raw_handles_of_other_backends_read_as_their_raw_values() {
    let mut view = 0u8;
    let pointer = NonNull::from(&mut view).cast();
    let address = pointer.addr().get();
    assert_ne!(address, 0);
    let appkit = RawWindowHandle::AppKit(AppKitWindowHandle::new(pointer));
    assert_eq!(
        WindowOptions::for_raw_window_handle(&appkit).raw_window_handle,
        Some(NativeWindowHandle::AppKit { ns_view: address })
    );
    let wayland = RawWindowHandle::Wayland(WaylandWindowHandle::new(pointer));
    assert_eq!(
        WindowOptions::for_raw_window_handle(&wayland).raw_window_handle,
        Some(NativeWindowHandle::Wayland { surface: address })
    );
    let xlib = RawWindowHandle::Xlib(XlibWindowHandle::new(0x60000a));
    assert_eq!(
        WindowOptions::for_raw_window_handle(&xlib).raw_window_handle,
        Some(NativeWindowHandle::Xlib { window: 0x60000a })
    );
    let xcb = RawWindowHandle::Xcb(XcbWindowHandle::new(NonZeroU32::new(0x1c).unwrap()));
    assert_eq!(
        WindowOptions::for_raw_window_handle(&xcb).raw_window_handle,
        Some(NativeWindowHandle::Xcb { window: 0x1c })
    );
}

#[test]
fn raw_handle_without_backend_reads_as_other() {
    let raw = RawWindowHandle::Web(WebWindowHandle::new(3));
    let options = WindowOptions::for_raw_window_handle(&raw);
    assert_eq!(
        options.raw_window_handle,
        Some(NativeWindowHandle::Other {
            description: String::from("Web(WebWindowHandle { id: 3 })")
        })
    );
}

#[test]
fn options_from_raw_handle_leave_everything_to_the_host() {
    let raw = RawWindowHandle::Win32(Win32WindowHandle::new(NonZeroIsize::new(9).unwrap()));
    let options = WindowOptions::for_raw_window_handle(&raw);
    assert!(!options.focus && !options.show);
    assert!(!options.is_movable && !options.is_resizable && !options.is_minimizable);
    assert_eq!(options.titlebar, None);
}

#[test]
fn raw_win32_handle_begins_an_attach_request() {
    let raw = RawWindowHandle::Win32(Win32WindowHandle::new(NonZeroIsize::new(9).unwrap()));
    let options = WindowOptions::for_raw_window_handle(&raw);
    let step = WindowsWindow::open_embedded(AnyWindowHandle { id: 1 }, options, creation_info());
    let Some(AttachStep::Continue { call, .. }) = step else {
        panic!("the request did not begin");
    };
    assert_eq!(call, NativeCall::CheckAlive { hwnd: 9 });
}

#[test]
fn raw_handle_of_another_backend_is_a_mismatch() {
    let xlib = RawWindowHandle::Xlib(XlibWindowHandle::new(17));
    let web = RawWindowHandle::Web(WebWindowHandle::new(3));
    for (raw, read) in [
        (xlib, NativeWindowHandle::Xlib { window: 17 }),
        (
            web,
            NativeWindowHandle::Other {
                description: String::from("Web(WebWindowHandle { id: 3 })"),
            },
        ),
    ] {
        let options = WindowOptions::for_raw_window_handle(&raw);
        let step = WindowsWindow::open_embedded(AnyWindowHandle { id: 1 }, options, creation_info());
        assert_eq!(step, Some(AttachStep::Failed(AttachError::HandleMismatch(read))));
    }
}

#[test]
fn one_raw_handle_reads_the_same_every_time() {
    let raw = RawWindowHandle::Win32(Win32WindowHandle::new(NonZeroIsize::new(77).unwrap()));
    assert_eq!(
        WindowOptions::for_raw_window_handle(&raw),
        WindowOptions::for_raw_window_handle(&raw)
    );
    let other = RawWindowHandle::Win32(Win32WindowHandle::new(NonZeroIsize::new(78).unwrap()));
    assert_ne!(
        WindowOptions::for_raw_window_handle(&raw),
        WindowOptions::for_raw_window_handle(&other)
    );
}
