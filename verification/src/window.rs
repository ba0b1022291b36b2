//! The state of an attached window and the notifications that reach it.

use vstd::prelude::*;
use crate::geometry::{DeviceSize, DisplayInfo, ScaleFactor, Size, WindowAppearance};
use crate::options::{TitlebarOptions, WindowParams};
use crate::platform::NativeCall;
use crate::record::InitializationRecord;

verus! {

/// The toolkit's own identifier of a window.
#[derive(Clone, Copy, Debug, PartialEq, Eq)]
pub struct AnyWindowHandle {
    pub id: u64,
}

/// What the platform backend passes to every window it sets up.
#[derive(Clone, Copy, Debug, PartialEq, Eq)]
pub struct WindowCreationInfo {
    /// The number by which the backend tells its own messages apart.
    pub validation_number: usize,
    /// The hidden window through which the backend receives its messages.
    pub platform_window_handle: isize,
    /// Whether the renderer must do without direct composition.
    pub disable_direct_composition: bool,
}

/// Names a callback that the event dispatch of the toolkit holds.
#[derive(Clone, Copy, Debug, PartialEq, Eq)]
pub struct CallbackId {
    pub id: u64,
}

/// A resize callback that is due: which callback, and the arguments it is
/// called with.
#[derive(Clone, Copy, Debug, PartialEq, Eq)]
pub struct ResizeDispatch {
    pub callback: CallbackId,
    pub size: Size,
    pub scale_factor: ScaleFactor,
}

/// The callbacks registered on a window.
#[derive(Clone, Copy, Debug, PartialEq, Eq)]
pub struct Callbacks {
    pub resize: Option<CallbackId>,
}

/// The part of a window that changes while it lives.
#[derive(Clone, Copy, Debug, PartialEq, Eq)]
pub struct WindowsWindowState {
    /// The size of the window in logical pixels.
    pub logical_size: Size,
    /// The scale factor of the display that the window was attached on.
    pub scale_factor: ScaleFactor,
    /// The size of the surface that the window renders into, in device
    /// pixels. It follows from the logical size and the scale factor.
    pub device_size: DeviceSize,
    pub display: DisplayInfo,
    pub appearance: WindowAppearance,
    pub min_size: Option<Size>,
    pub callbacks: Callbacks,
}

/// Everything a window holds, as plain values.
#[derive(Clone, Copy, Debug, PartialEq, Eq)]
pub struct WindowsWindowInner {
    /// The native window. The toolkit never destroys it.
    pub hwnd: isize,
    pub handle: AnyWindowHandle,
    pub state: WindowsWindowState,
    pub titlebar: Option<TitlebarOptions>,
    pub hide_title_bar: bool,
    pub is_movable: bool,
    pub is_resizable: bool,
    pub is_minimizable: bool,
    pub focus_on_open: bool,
    pub show_on_open: bool,
    pub validation_number: usize,
    pub platform_window_handle: isize,
    pub disable_direct_composition: bool,
}

impl WindowsWindowInner {
    /// The window attached to `hwnd`. Size, scale, display and appearance
    /// come from the record and the minimum size from the parameters. Every
    /// capability that the host controls is off, whatever the parameters ask
    /// for, and the creation-only fields of the record are not read.
    pub open spec fn attached(
        hwnd: isize,
        handle: AnyWindowHandle,
        params: WindowParams,
        creation_info: WindowCreationInfo,
        record: InitializationRecord,
    ) -> WindowsWindowInner {
        WindowsWindowInner {
            hwnd,
            handle,
            state: WindowsWindowState {
                logical_size: record.client_size(),
                scale_factor: record.display.scale(),
                device_size: record.display.scale().device_size(record.client_size()),
                display: record.display,
                appearance: record.appearance,
                min_size: params.window_min_size,
                callbacks: Callbacks { resize: None },
            },
            titlebar: None,
            hide_title_bar: false,
            is_movable: false,
            is_resizable: false,
            is_minimizable: false,
            focus_on_open: false,
            show_on_open: false,
            validation_number: creation_info.validation_number,
            platform_window_handle: creation_info.platform_window_handle,
            disable_direct_composition: creation_info.disable_direct_composition,
        }
    }

    /// Whether every capability that the host controls is off.
    pub open spec fn host_controlled(self) -> bool {
        &&& self.titlebar is None
        &&& !self.hide_title_bar
        &&& !self.is_movable
        &&& !self.is_resizable
        &&& !self.is_minimizable
        &&& !self.focus_on_open
        &&& !self.show_on_open
    }

    /// Whether the device size is the one that the logical size and the
    /// scale factor give.
    pub open spec fn is_consistent(self) -> bool {
        self.state.device_size == self.state.scale_factor.device_size(self.state.logical_size)
    }

    /// The window after its size became `size`: the logical size is `size`,
    /// the device size is what `size` gives at the scale factor of the
    /// window, and nothing else changed.
    pub open spec fn resized(self, size: Size) -> WindowsWindowInner {
        WindowsWindowInner {
            state: WindowsWindowState {
                logical_size: size,
                device_size: self.state.scale_factor.device_size(size),
                ..self.state
            },
            ..self
        }
    }

    /// The callback that a change of size to `size` makes due: the registered
    /// one, with the new size and the scale factor of the window.
    pub open spec fn resize_dispatch(self, size: Size) -> Option<ResizeDispatch> {
        match self.state.callbacks.resize {
            Some(callback) => Some(
                ResizeDispatch { callback, size, scale_factor: self.state.scale_factor },
            ),
            None => None,
        }
    }

    /// What a resize that the host reports makes of the window: the window
    /// with the new size, and the callback that is due.
    pub open spec fn after_host_resize(self, size: Size) -> (WindowsWindowInner, Option<ResizeDispatch>) {
        (self.resized(size), self.resize_dispatch(size))
    }

    /// What a resize that the platform delivers makes of the window.
    pub open spec fn after_native_resize(self, size: Size) -> (
        WindowsWindowInner,
        Option<ResizeDispatch>,
    ) {
        (self.resized(size), self.resize_dispatch(size))
    }

    /// The window with `callback` in its resize slot.
    pub open spec fn with_resize_callback(self, callback: CallbackId) -> WindowsWindowInner {
        WindowsWindowInner {
            state: WindowsWindowState {
                callbacks: Callbacks { resize: Some(callback) },
                ..self.state
            },
            ..self
        }
    }

}

/// A window of the toolkit that renders into a native window of a host. Its
/// contents change only through the methods below, and at every moment each
/// capability that the host controls is off and the device size is the one
/// that the logical size gives.
#[derive(Debug, PartialEq, Eq)]
pub struct WindowsWindow {
    inner: WindowsWindowInner,
}

impl View for WindowsWindow {
    type V = WindowsWindowInner;

    closed spec fn view(&self) -> WindowsWindowInner {
        self.inner
    }
}

impl WindowsWindow {
    /// What holds of every window of this type: each capability that the
    /// host controls is off, and the device size follows from the logical
    /// size.
    #[verifier::type_invariant]
    pub open spec fn attached_mode(self) -> bool {
        self@.host_controlled() && self@.is_consistent()
    }

    /// Constructs the state of a window attached to the live native window
    /// `hwnd`, from the record derived for it.
    pub fn attached(
        hwnd: isize,
        handle: AnyWindowHandle,
        params: &WindowParams,
        creation_info: &WindowCreationInfo,
        record: &InitializationRecord,
    ) -> (window: WindowsWindow)
        ensures
            window@ == WindowsWindowInner::attached(hwnd, handle, *params, *creation_info, *record),
            window@.host_controlled(),
            window@.is_consistent(),
            window@.state.logical_size == record.client_size(),
    {
        let logical_size = Size { width: record.cx, height: record.cy };
        let scale_factor = record.display.scale_factor();
        WindowsWindow {
            inner: WindowsWindowInner {
                hwnd,
                handle,
                state: WindowsWindowState {
                    logical_size,
                    scale_factor,
                    device_size: scale_factor.to_device_size(logical_size),
                    display: record.display,
                    appearance: record.appearance,
                    min_size: params.window_min_size,
                    callbacks: Callbacks { resize: None },
                },
                titlebar: None,
                hide_title_bar: false,
                is_movable: false,
                is_resizable: false,
                is_minimizable: false,
                focus_on_open: false,
                show_on_open: false,
                validation_number: creation_info.validation_number,
                platform_window_handle: creation_info.platform_window_handle,
                disable_direct_composition: creation_info.disable_direct_composition,
            },
        }
    }

    /// Returns what the window holds.
    pub fn inner(&self) -> (inner: WindowsWindowInner)
        ensures
            inner == self@,
            inner.host_controlled(),
            inner.is_consistent(),
    {
        proof {
            use_type_invariant(self);
        }
        self.inner
    }

    /// Returns the native window that this window renders into.
    pub fn hwnd(&self) -> (hwnd: isize)
        ensures
            hwnd == self@.hwnd,
    {
        self.inner.hwnd
    }

    /// Returns the current logical size.
    pub fn logical_size(&self) -> (size: Size)
        ensures
            size == self@.state.logical_size,
    {
        self.inner.state.logical_size
    }

    /// Returns the current scale factor.
    pub fn scale_factor(&self) -> (scale: ScaleFactor)
        ensures
            scale == self@.state.scale_factor,
    {
        self.inner.state.scale_factor
    }

    /// Returns the current size of the render surface in device pixels.
    pub fn device_size(&self) -> (size: DeviceSize)
        ensures
            size == self@.state.device_size,
    {
        self.inner.state.device_size
    }

    /// Puts `callback` into the resize slot, in place of any earlier one.
    pub fn on_resize(&mut self, callback: CallbackId)
        ensures
            final(self)@ == old(self)@.with_resize_callback(callback),
    {
        proof {
            use_type_invariant(&*self);
        }
        self.inner.state.callbacks.resize = Some(callback);
    }

    /// Takes in a change of size, whoever reported it: stores the size,
    /// derives the device size anew, then says which callback is due.
    fn resize_to(&mut self, size: Size) -> (dispatch: Option<ResizeDispatch>)
        ensures
            final(self)@ == old(self)@.resized(size),
            dispatch == old(self)@.resize_dispatch(size),
    {
        proof {
            use_type_invariant(&*self);
        }
        let device_size = self.inner.state.scale_factor.to_device_size(size);
        self.inner.state = WindowsWindowState { logical_size: size, device_size, ..self.inner.state };
        match self.inner.state.callbacks.resize {
            Some(callback) => Some(
                ResizeDispatch {
                    callback,
                    size: self.inner.state.logical_size,
                    scale_factor: self.inner.state.scale_factor,
                },
            ),
            None => None,
        }
    }

    /// Notifies the window that the host gave the native window the size
    /// `new_size`. The window reports exactly that size from now on, and the
    /// device size that follows from it. Where a resize callback is
    /// registered, it is due once, with `new_size` and the scale factor of
    /// the window; the caller invokes it.
    pub fn notify_host_resize(&mut self, new_size: Size) -> (dispatch: Option<ResizeDispatch>)
        ensures
            (final(self)@, dispatch) == old(self)@.after_host_resize(new_size),
            final(self)@ == old(self)@.resized(new_size),
            final(self)@.state.logical_size == new_size,
            final(self)@.is_consistent(),
            dispatch == old(self)@.resize_dispatch(new_size),
            dispatch is Some <==> old(self)@.state.callbacks.resize is Some,
    {
        self.resize_to(new_size)
    }

    /// Takes in a resize that the platform delivered for the native window.
    pub fn handle_native_resize(&mut self, new_size: Size) -> (dispatch: Option<ResizeDispatch>)
        ensures
            (final(self)@, dispatch) == old(self)@.after_native_resize(new_size),
            final(self)@ == old(self)@.resized(new_size),
            dispatch == old(self)@.resize_dispatch(new_size),
    {
        self.resize_to(new_size)
    }

    /// Returns whether this window is attached to a native window of a host,
    /// which every window of this type is. Callers use it to skip what does
    /// not apply to such a window.
    pub fn is_embedded(&self) -> (embedded: bool)
        ensures
            embedded,
            self@.host_controlled(),
            self@.is_consistent(),
    {
        proof {
            use_type_invariant(self);
        }
        !self.inner.is_movable
    }

    /// Returns whether the toolkit may issue `call` on behalf of this window:
    /// every call but those that the host alone decides.
    pub fn permits(&self, call: &NativeCall) -> (permitted: bool)
        ensures
            permitted == !call.is_host_controlled(),
    {
        !(self.is_embedded() && call.host_controlled())
    }
}

} // verus!
