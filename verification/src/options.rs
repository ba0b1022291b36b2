//! The options with which a window is opened, and the request to attach to a
//! native window instead of creating one.

use raw_window_handle::RawWindowHandle;
use vstd::prelude::*;
use crate::geometry::Size;
use crate::handle::{raw_reading, read_raw_handle, NativeWindowHandle};

verus! {

/// How the title bar of a window that the toolkit creates is drawn.
#[derive(Clone, Copy, Debug, PartialEq, Eq, Structural)]
pub struct TitlebarOptions {
    pub appears_transparent: bool,
}

/// The options with which a window is opened. Opening a window uses them up.
#[derive(Debug, PartialEq, Eq)]
pub struct WindowOptions {
    /// The native window to attach to; `None` asks for a window of the
    /// toolkit's own.
    pub raw_window_handle: Option<NativeWindowHandle>,
    /// The title bar, or `None` for a window without one.
    pub titlebar: Option<TitlebarOptions>,
    /// Whether the window takes the focus when it opens.
    pub focus: bool,
    /// Whether the window is shown when it opens.
    pub show: bool,
    /// Whether the user can move the window.
    pub is_movable: bool,
    /// Whether the user can resize the window.
    pub is_resizable: bool,
    /// Whether the user can minimize the window.
    pub is_minimizable: bool,
    /// The smallest size the window may take.
    pub window_min_size: Option<Size>,
}

/// What the open path hands to a platform backend: the options without the
/// native handle.
#[derive(Clone, Copy, Debug, PartialEq, Eq)]
pub struct WindowParams {
    pub titlebar: Option<TitlebarOptions>,
    pub focus: bool,
    pub show: bool,
    pub is_movable: bool,
    pub is_resizable: bool,
    pub is_minimizable: bool,
    pub window_min_size: Option<Size>,
}

impl WindowOptions {
    /// The options of an ordinary window: a title bar, focused and shown on
    /// opening, movable, resizable and minimizable, attached to nothing.
    pub open spec fn default_options() -> WindowOptions {
        WindowOptions {
            raw_window_handle: None,
            titlebar: Some(TitlebarOptions { appears_transparent: false }),
            focus: true,
            show: true,
            is_movable: true,
            is_resizable: true,
            is_minimizable: true,
            window_min_size: None,
        }
    }

    /// The options that attach to `raw_handle`: the handle, and every
    /// capability that the host controls switched off.
    pub open spec fn embedded_options(raw_handle: NativeWindowHandle) -> WindowOptions {
        WindowOptions {
            raw_window_handle: Some(raw_handle),
            titlebar: None,
            focus: false,
            show: false,
            is_movable: false,
            is_resizable: false,
            is_minimizable: false,
            window_min_size: None,
        }
    }

    /// Whether these options leave every host-controlled capability off.
    pub open spec fn host_controlled(self) -> bool {
        &&& self.titlebar is None
        &&& !self.focus
        &&& !self.show
        &&& !self.is_movable
        &&& !self.is_resizable
        &&& !self.is_minimizable
    }

    /// The parameters that these options hand to a backend.
    pub open spec fn params_of(self) -> WindowParams {
        WindowParams {
            titlebar: self.titlebar,
            focus: self.focus,
            show: self.show,
            is_movable: self.is_movable,
            is_resizable: self.is_resizable,
            is_minimizable: self.is_minimizable,
            window_min_size: self.window_min_size,
        }
    }

    /// Creates window options for rendering into an existing native window,
    /// such as the one a plugin host provides. The host controls focus,
    /// visibility, placement and chrome, so all of these are off.
    pub fn for_embedded_window(raw_handle: NativeWindowHandle) -> (options: WindowOptions)
        ensures
            options == Self::embedded_options(raw_handle),
            options.raw_window_handle == Some(raw_handle),
            options.host_controlled(),
            options.window_min_size == Self::default_options().window_min_size,
    {
        WindowOptions {
            raw_window_handle: Some(raw_handle),
            focus: false,
            show: false,
            is_movable: false,
            is_resizable: false,
            is_minimizable: false,
            titlebar: None,
            ..WindowOptions::default()
        }
    }

    /// Creates window options for rendering into the native window that a
    /// handle of the `raw-window-handle` crate stands for. The options are
    /// those of [`for_embedded_window`](Self::for_embedded_window) for the
    /// handle as read; a handle of a kind that no backend consumes reads as
    /// `Other`, and attaching to it fails as a mismatch that carries its
    /// description.
    pub fn for_raw_window_handle(raw_handle: &RawWindowHandle) -> (options: WindowOptions)
        ensures
            options == Self::embedded_options(raw_reading(*raw_handle)),
            options.raw_window_handle == Some(raw_reading(*raw_handle)),
            options.host_controlled(),
            ({
                let read = raw_reading(*raw_handle);
                read is Win32 || read is AppKit || read is Xcb || read is Wayland
                    ==> !read.is_null_handle()
            }),
    {
        Self::for_embedded_window(read_raw_handle(raw_handle))
    }

    /// Returns the parameters that these options hand to a backend.
    pub fn params(&self) -> (params: WindowParams)
        ensures
            params == self.params_of(),
    {
        WindowParams {
            titlebar: self.titlebar,
            focus: self.focus,
            show: self.show,
            is_movable: self.is_movable,
            is_resizable: self.is_resizable,
            is_minimizable: self.is_minimizable,
            window_min_size: self.window_min_size,
        }
    }
}

impl Default for WindowOptions {
    fn default() -> (options: WindowOptions)
        ensures
            options == WindowOptions::default_options(),
    {
        WindowOptions {
            raw_window_handle: None,
            titlebar: Some(TitlebarOptions { appears_transparent: false }),
            focus: true,
            show: true,
            is_movable: true,
            is_resizable: true,
            is_minimizable: true,
            window_min_size: None,
        }
    }
}

} // verus!
