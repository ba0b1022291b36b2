use embedded_window::{
    confirm_liveness, validate_handle, AnyWindowHandle, AttachError, AttachStep, BindingTable,
    CallbackId, ClientRect, DeviceSize, DisplayInfo, InitializationBuilder, NativeCall, NativeReply,
    NativeWindowHandle, Platform, ResizeDispatch, ScaleFactor, Size, TitlebarOptions,
    WindowAppearance, WindowCreationInfo, WindowOptions, WindowParams, WindowsWindow,
};

fn creation_info() -> WindowCreationInfo {
    WindowCreationInfo {
        validation_number: 7,
        platform_window_handle: 0x900,
        disable_direct_composition: true,
    }
}

fn unconsumed() -> NativeWindowHandle {
    NativeWindowHandle::Other { description: String::from("Haiku(HaikuWindowHandle)") }
}

fn record_of(width: i32, height: i32, dpi: u32) -> embedded_window::InitializationRecord {
    InitializationBuilder::new()
        .with_display(DisplayInfo { monitor: 1, dpi })
        .with_appearance(Some(WindowAppearance::Light))
        .with_client_rect(Some(ClientRect { left: 0, top: 0, right: width, bottom: height }))
        .build()
        .unwrap()
}

fn window_of(hwnd: isize, width: i32, height: i32, dpi: u32) -> WindowsWindow {
    WindowsWindow::attached(
        hwnd,
        AnyWindowHandle { id: 1 },
        &WindowOptions::default().params(),
        &creation_info(),
        &record_of(width, height, dpi),
    )
}

fn bound_table(hwnd: isize, width: i32, height: i32, dpi: u32) -> BindingTable {
    let mut table = BindingTable::new();
    let mut step = WindowsWindow::new_embedded(
        AnyWindowHandle { id: 1 },
        WindowOptions::default().params(),
        creation_info(),
        NativeWindowHandle::Win32 { hwnd },
    );
    let replies = [
        NativeReply::Alive(true),
        NativeReply::Display(DisplayInfo { monitor: 1, dpi }),
        NativeReply::Appearance(Some(WindowAppearance::Light)),
        NativeReply::ClientArea(Some(ClientRect { left: 0, top: 0, right: width, bottom: height })),
        NativeReply::DropTarget(true),
    ];
    for reply in replies {
        let AttachStep::Continue { session, .. } = step else {
            panic!("the request ended early");
        };
        step = session.step(reply, &mut table);
    }
    assert_eq!(step, AttachStep::Attached { hwnd, degraded: None });
    table
}

#[test]
fn for_embedded_window_turns_host_controlled_options_off() {
    let raw_handle = NativeWindowHandle::Win32 { hwnd: 0x1234 };
    let options = WindowOptions::for_embedded_window(raw_handle.clone());
    assert_eq!(options.raw_window_handle, Some(raw_handle));
    assert!(!options.focus);
    assert!(!options.show);
    assert!(!options.is_movable);
    assert!(!options.is_resizable);
    assert!(!options.is_minimizable);
    assert_eq!(options.titlebar, None);
    assert_eq!(options.window_min_size, None);
}

#[test]
fn for_embedded_window_keeps_any_kind_of_handle() {
    let raw_handle = NativeWindowHandle::Wayland { surface: 0xbeef };
    let options = WindowOptions::for_embedded_window(raw_handle.clone());
    assert_eq!(options.raw_window_handle, Some(raw_handle));
    assert!(!options.show);
}

#[test]
fn default_options_describe_an_ordinary_window() {
    let options = WindowOptions::default();
    assert_eq!(options.raw_window_handle, None);
    assert_eq!(options.titlebar, Some(TitlebarOptions { appears_transparent: false }));
    assert!(options.focus && options.show);
    assert!(options.is_movable && options.is_resizable && options.is_minimizable);
    assert_eq!(options.window_min_size, None);
}

#[test]
fn params_carry_the_options_without_the_handle() {
    let mut options = WindowOptions::default();
    options.show = false;
    options.window_min_size = Some(Size { width: 3, height: 4 });
    assert_eq!(
        options.params(),
        WindowParams {
            titlebar: Some(TitlebarOptions { appears_transparent: false }),
            focus: true,
            show: false,
            is_movable: true,
            is_resizable: true,
            is_minimizable: true,
            window_min_size: Some(Size { width: 3, height: 4 }),
        }
    );
}

#[test]
fn validate_handle_accepts_live_looking_handle_of_the_platform() {
    let cases = [
        (Platform::Windows, NativeWindowHandle::Win32 { hwnd: 1 }),
        (Platform::Windows, NativeWindowHandle::Win32 { hwnd: -1 }),
        (Platform::MacOs, NativeWindowHandle::AppKit { ns_view: 0x10 }),
        (Platform::Linux, NativeWindowHandle::Xlib { window: 5 }),
        (Platform::Linux, NativeWindowHandle::Xcb { window: 6 }),
        (Platform::Linux, NativeWindowHandle::Wayland { surface: 0x20 }),
    ];
    for (platform, handle) in cases {
        assert_eq!(validate_handle(platform, handle.clone()), Ok(handle.clone()));
        assert_eq!(handle.platform(), Some(platform));
        assert!(handle.matches_platform(platform));
        assert!(!handle.is_null());
    }
}

#[test]
fn validate_handle_reports_mismatch_with_the_handle() {
    let cases = [
        (Platform::Windows, NativeWindowHandle::AppKit { ns_view: 0x10 }),
        (Platform::Windows, NativeWindowHandle::Xcb { window: 6 }),
        (Platform::MacOs, NativeWindowHandle::Win32 { hwnd: 1 }),
        (Platform::MacOs, NativeWindowHandle::Wayland { surface: 0x20 }),
        (Platform::Linux, NativeWindowHandle::Win32 { hwnd: 1 }),
        (Platform::Linux, NativeWindowHandle::AppKit { ns_view: 0x10 }),
        (Platform::Windows, unconsumed()),
        (Platform::MacOs, unconsumed()),
        (Platform::Linux, unconsumed()),
    ];
    for (platform, handle) in cases {
        assert!(!handle.matches_platform(platform));
        assert_eq!(
            validate_handle(platform, handle.clone()),
            Err(AttachError::HandleMismatch(handle))
        );
    }
    assert_eq!(unconsumed().platform(), None);
}

#[test]
fn validate_handle_reports_mismatch_before_null() {
    let handle = NativeWindowHandle::Xlib { window: 0 };
    assert_eq!(
        validate_handle(Platform::Windows, handle.clone()),
        Err(AttachError::HandleMismatch(handle))
    );
}

#[test]
fn validate_handle_reports_null_handles_as_invalid() {
    let cases = [
        (Platform::Windows, NativeWindowHandle::Win32 { hwnd: 0 }),
        (Platform::MacOs, NativeWindowHandle::AppKit { ns_view: 0 }),
        (Platform::Linux, NativeWindowHandle::Xlib { window: 0 }),
        (Platform::Linux, NativeWindowHandle::Xcb { window: 0 }),
        (Platform::Linux, NativeWindowHandle::Wayland { surface: 0 }),
    ];
    for (platform, handle) in cases {
        assert!(handle.is_null());
        assert_eq!(
            validate_handle(platform, handle.clone()),
            Err(AttachError::InvalidHandle(handle))
        );
    }
}

#[test]
fn confirm_liveness_follows_the_platform() {
    let handle = NativeWindowHandle::Win32 { hwnd: 3 };
    assert_eq!(confirm_liveness(handle.clone(), true), Ok(handle.clone()));
    assert_eq!(confirm_liveness(handle.clone(), false), Err(AttachError::InvalidHandle(handle)));
}

#[test]
fn client_rect_size_is_the_difference_of_its_edges() {
    let rect = ClientRect { left: 10, top: 20, right: 810, bottom: 620 };
    assert_eq!(rect.size(), Size { width: 800, height: 600 });
    let inverted = ClientRect { left: 5, top: 5, right: 2, bottom: 1 };
    assert_eq!(inverted.size(), Size { width: -3, height: -4 });
}

#[test]
fn client_rect_size_does_not_overflow() {
    let widest = ClientRect { left: i32::MIN, top: i32::MAX, right: i32::MAX, bottom: i32::MIN };
    assert_eq!(widest.size(), Size { width: 4294967295, height: -4294967295 });
}

#[test]
fn display_scale_factor_is_its_resolution() {
    assert_eq!(DisplayInfo { monitor: 1, dpi: 192 }.scale_factor(), ScaleFactor { dpi: 192 });
}

#[test]
fn default_appearance_is_light() {
    assert_eq!(WindowAppearance::default(), WindowAppearance::Light);
}

#[test]
fn builder_needs_the_client_rectangle() {
    let builder = InitializationBuilder::new()
        .with_display(DisplayInfo { monitor: 1, dpi: 96 })
        .with_appearance(Some(WindowAppearance::Dark));
    assert_eq!(builder.build(), Err(AttachError::GeometryUnavailable));
    assert_eq!(builder.with_client_rect(None).build(), Err(AttachError::GeometryUnavailable));
}

#[test]
fn builder_needs_the_display() {
    let builder = InitializationBuilder::new()
        .with_client_rect(Some(ClientRect { left: 0, top: 0, right: 1, bottom: 1 }));
    assert_eq!(builder.build(), Err(AttachError::GeometryUnavailable));
    assert_eq!(InitializationBuilder::new().build(), Err(AttachError::GeometryUnavailable));
}

#[test]
fn builder_zeroes_what_only_creation_fills() {
    let record = InitializationBuilder::new()
        .with_display(DisplayInfo { monitor: 9, dpi: 120 })
        .with_client_rect(Some(ClientRect { left: 4, top: 6, right: 104, bottom: 56 }))
        .build()
        .unwrap();
    assert_eq!(record.cx, 100);
    assert_eq!(record.cy, 50);
    assert_eq!(record.display, DisplayInfo { monitor: 9, dpi: 120 });
    assert_eq!(record.appearance, WindowAppearance::Light);
    assert_eq!((record.x, record.y), (0, 0));
    assert_eq!((record.style, record.ex_style), (0, 0));
    assert_eq!((record.parent, record.instance, record.menu), (0, 0, 0));
    assert_eq!(record.class_atom, 0);
}

#[test]
fn builder_keeps_the_reported_appearance() {
    let record = InitializationBuilder::new()
        .with_display(DisplayInfo { monitor: 9, dpi: 120 })
        .with_appearance(Some(WindowAppearance::Dark))
        .with_client_rect(Some(ClientRect { left: 0, top: 0, right: 1, bottom: 1 }))
        .build()
        .unwrap();
    assert_eq!(record.appearance, WindowAppearance::Dark);
}

#[test]
fn attached_state_does_not_read_creation_only_fields() {
    let mut record = record_of(300, 200, 96);
    let plain = WindowsWindow::attached(
        5,
        AnyWindowHandle { id: 1 },
        &WindowOptions::default().params(),
        &creation_info(),
        &record,
    );
    record.x = 40;
    record.y = 50;
    record.style = 0x00cf0000;
    record.parent = 77;
    let other = WindowsWindow::attached(
        5,
        AnyWindowHandle { id: 1 },
        &WindowOptions::default().params(),
        &creation_info(),
        &record,
    );
    assert_eq!(plain, other);
    assert_eq!(plain.logical_size(), Size { width: 300, height: 200 });
}

#[test]
fn attached_state_is_embedded_whatever_the_params() {
    let window = window_of(5, 300, 200, 96);
    assert!(window.is_embedded());
    let inner = window.inner();
    assert!(!inner.is_movable && !inner.is_resizable && !inner.is_minimizable);
    assert!(!inner.focus_on_open && !inner.show_on_open && !inner.hide_title_bar);
    assert_eq!(inner.titlebar, None);
    assert_eq!(inner.validation_number, 7);
    assert_eq!(inner.platform_window_handle, 0x900);
    assert!(inner.disable_direct_composition);
}

#[test]
fn notify_host_resize_fires_registered_callback_once() {
    let mut window = window_of(5, 800, 600, 144);
    window.on_resize(CallbackId { id: 17 });
    let new_size = Size { width: 1024, height: 768 };
    let dispatch = window.notify_host_resize(new_size);
    assert_eq!(
        dispatch,
        Some(ResizeDispatch {
            callback: CallbackId { id: 17 },
            size: Size { width: 1024, height: 768 },
            scale_factor: ScaleFactor { dpi: 144 },
        })
    );
    assert_eq!(window.logical_size(), new_size);
    assert_eq!(window.scale_factor(), ScaleFactor { dpi: 144 });
}

#[test]
fn notify_host_resize_without_callback_only_stores_the_size() {
    let mut window = window_of(5, 800, 600, 96);
    let dispatch = window.notify_host_resize(Size { width: 1, height: 2 });
    assert_eq!(dispatch, None);
    assert_eq!(window.logical_size(), Size { width: 1, height: 2 });
    assert!(window.is_embedded());
}

#[test]
fn notify_host_resize_changes_nothing_but_the_size() {
    let mut window = window_of(5, 800, 600, 96);
    window.on_resize(CallbackId { id: 1 });
    let before = window.inner();
    window.notify_host_resize(Size { width: 11, height: 12 });
    let mut expected = before;
    expected.state.logical_size = Size { width: 11, height: 12 };
    expected.state.device_size = DeviceSize { width: 11, height: 12 };
    assert_eq!(window.inner(), expected);
}

#[test]
fn notify_host_resize_derives_the_device_size_anew() {
    let mut window = window_of(5, 800, 600, 144);
    assert_eq!(window.device_size(), DeviceSize { width: 1200, height: 900 });
    window.notify_host_resize(Size { width: 1024, height: 768 });
    assert_eq!(window.device_size(), DeviceSize { width: 1536, height: 1152 });
    assert_eq!(window.scale_factor(), ScaleFactor { dpi: 144 });
    window.handle_native_resize(Size { width: 1, height: 3 });
    assert_eq!(window.device_size(), DeviceSize { width: 2, height: 5 });
}

#[test]
fn device_extent_is_the_scaled_extent_rounded_up() {
    assert_eq!(ScaleFactor { dpi: 96 }.to_device_extent(800), 800);
    assert_eq!(ScaleFactor { dpi: 120 }.to_device_extent(800), 1000);
    assert_eq!(ScaleFactor { dpi: 120 }.to_device_extent(1), 2);
    assert_eq!(ScaleFactor { dpi: 125 }.to_device_extent(1023), 1333);
    assert_eq!(ScaleFactor { dpi: 192 }.to_device_extent(0), 0);
    assert_eq!(ScaleFactor { dpi: 0 }.to_device_extent(77), 0);
    assert_eq!(ScaleFactor { dpi: 120 }.to_device_extent(-1), -1);
    assert_eq!(ScaleFactor { dpi: 120 }.to_device_extent(-4), -5);
    assert_eq!(ScaleFactor { dpi: 1 }.to_device_extent(-95), 0);
    assert_eq!(ScaleFactor { dpi: 1 }.to_device_extent(-96), -1);
    assert_eq!(ScaleFactor { dpi: 1 }.to_device_extent(-97), -1);
}

#[test]
fn device_extent_does_not_overflow() {
    let finest = ScaleFactor { dpi: u32::MAX };
    assert_eq!(finest.to_device_extent(i64::MAX), 412646679665716632871064918);
    assert_eq!(finest.to_device_extent(i64::MIN), -412646679665716632915804160);
    assert_eq!(
        finest.to_device_size(Size { width: i64::MAX, height: i64::MIN }),
        DeviceSize { width: 412646679665716632871064918, height: -412646679665716632915804160 }
    );
}

#[test]
fn host_resize_and_native_resize_are_indistinguishable() {
    let mut by_host = window_of(5, 800, 600, 120);
    let mut by_platform = window_of(5, 800, 600, 120);
    by_host.on_resize(CallbackId { id: 4 });
    by_platform.on_resize(CallbackId { id: 4 });
    let size = Size { width: 333, height: 444 };
    assert_eq!(by_host.notify_host_resize(size), by_platform.handle_native_resize(size));
    assert_eq!(by_host, by_platform);
}

#[test]
fn later_resize_callback_replaces_the_earlier() {
    let mut window = window_of(5, 800, 600, 96);
    window.on_resize(CallbackId { id: 1 });
    window.on_resize(CallbackId { id: 2 });
    let dispatch = window.notify_host_resize(Size { width: 9, height: 9 }).unwrap();
    assert_eq!(dispatch.callback, CallbackId { id: 2 });
}

#[test]
fn embedded_window_permits_no_host_controlled_call() {
    let window = window_of(5, 800, 600, 96);
    let denied = [
        NativeCall::Show { hwnd: 5 },
        NativeCall::Focus { hwnd: 5 },
        NativeCall::Move { hwnd: 5, x: 1, y: 2 },
        NativeCall::Resize { hwnd: 5, size: Size { width: 1, height: 1 } },
        NativeCall::Close { hwnd: 5 },
    ];
    for call in denied {
        assert!(call.host_controlled());
        assert!(!window.permits(&call));
    }
    let allowed = [
        NativeCall::CheckAlive { hwnd: 5 },
        NativeCall::LocateDisplay { hwnd: 5 },
        NativeCall::ReadAppearance,
        NativeCall::MeasureClientArea { hwnd: 5 },
        NativeCall::RegisterDropTarget { hwnd: 5 },
    ];
    for call in allowed {
        assert!(!call.host_controlled());
        assert!(window.permits(&call));
    }
}

#[test]
fn table_routes_host_resize_to_the_bound_window() {
    let mut table = bound_table(5, 800, 600, 96);
    assert!(table.on_resize(5, CallbackId { id: 3 }));
    let dispatch = table.notify_host_resize(5, Size { width: 1024, height: 768 });
    assert_eq!(
        dispatch,
        Some(ResizeDispatch {
            callback: CallbackId { id: 3 },
            size: Size { width: 1024, height: 768 },
            scale_factor: ScaleFactor { dpi: 96 },
        })
    );
    assert_eq!(table.window(5).unwrap().logical_size(), Size { width: 1024, height: 768 });
    assert_eq!(table.extra_references(5), 1);
    assert!(table.binding(5).unwrap().drop_target);
}

#[test]
fn table_routes_native_resize_like_host_resize() {
    let mut by_host = bound_table(5, 800, 600, 96);
    let mut by_platform = bound_table(5, 800, 600, 96);
    by_host.on_resize(5, CallbackId { id: 3 });
    by_platform.on_resize(5, CallbackId { id: 3 });
    let size = Size { width: 640, height: 400 };
    assert_eq!(by_host.notify_host_resize(5, size), by_platform.dispatch_native_resize(5, size));
    assert_eq!(by_host.binding(5), by_platform.binding(5));
}

#[test]
fn table_ignores_notifications_for_unbound_handles() {
    let mut table = bound_table(5, 800, 600, 96);
    assert!(!table.on_resize(6, CallbackId { id: 3 }));
    assert_eq!(table.notify_host_resize(6, Size { width: 1, height: 1 }), None);
    assert_eq!(table.dispatch_native_resize(6, Size { width: 1, height: 1 }), None);
    assert!(!table.is_bound(6));
    assert_eq!(table.window(5).unwrap().logical_size(), Size { width: 800, height: 600 });
    assert_eq!(table.binding(5).unwrap().window.state.callbacks.resize, None);
}

#[test]
fn detachment_releases_the_extra_reference_once() {
    let mut table = bound_table(5, 800, 600, 96);
    assert_eq!(table.extra_references(5), 1);
    let released = table.notify_destroyed(5).expect("the window was bound");
    assert_eq!(released.hwnd(), 5);
    assert_eq!(released.logical_size(), Size { width: 800, height: 600 });
    assert_eq!(table.extra_references(5), 0);
    assert!(!table.is_bound(5));
    assert!(table.window(5).is_none());
    assert!(table.notify_destroyed(5).is_none());
    assert_eq!(table.extra_references(5), 0);
    assert!(!table.is_bound(5));
}

#[test]
fn detached_window_takes_no_further_dispatch() {
    let mut table = bound_table(5, 800, 600, 96);
    table.on_resize(5, CallbackId { id: 3 });
    table.notify_destroyed(5);
    assert_eq!(table.notify_host_resize(5, Size { width: 1, height: 1 }), None);
    assert_eq!(table.dispatch_native_resize(5, Size { width: 1, height: 1 }), None);
}

#[test]
fn new_table_has_no_bindings() {
    let table = BindingTable::new();
    assert!(!table.is_bound(1));
    assert_eq!(table.extra_references(1), 0);
    assert_eq!(table.binding(1), None);
    assert!(table.window(1).is_none());
}
