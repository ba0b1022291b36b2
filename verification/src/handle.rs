//! Native window handles and their validation.

use raw_window_handle::RawWindowHandle;
use vstd::prelude::*;
use crate::error::AttachError;

verus! {

/// A platform backend of the toolkit.
#[derive(Clone, Copy, Debug, PartialEq, Eq, Structural)]
pub enum Platform {
    Windows,
    MacOs,
    Linux,
}

/// A native window handle as a host supplies it: the kind of handle and the
/// raw value that identifies the native object. A raw value of zero is the
/// null handle.
#[derive(Clone, Debug, PartialEq, Eq)]
#[allow(inconsistent_fields)]
pub enum NativeWindowHandle {
    /// A Win32 window handle.
    Win32 { hwnd: isize },
    /// An AppKit view, by its address.
    AppKit { ns_view: usize },
    /// An Xlib window, by its identifier.
    Xlib { window: u64 },
    /// An XCB window, by its identifier.
    Xcb { window: u32 },
    /// A Wayland surface, by its address.
    Wayland { surface: usize },
    /// A handle of a kind that no backend of the toolkit consumes. It is kept
    /// as the text that names its kind and its raw value, for diagnostics.
    Other { description: String },
}

/// What [`WindowOptions::for_raw_window_handle`] reads out of a window handle
/// of the `raw-window-handle` crate: the handle of this library that stands
/// for the same native window.
///
/// [`WindowOptions::for_raw_window_handle`]: crate::options::WindowOptions::for_raw_window_handle
pub uninterp spec fn raw_reading(raw: RawWindowHandle) -> NativeWindowHandle;

/// The window handle of the `raw-window-handle` crate, in which hosts and
/// windowing libraries pass native windows around. Nothing is known here of
/// what a value of it holds.
#[verifier::external_type_specification]
#[verifier::external_body]
pub struct ExRawWindowHandle(RawWindowHandle);

/// Reads a `raw_window_handle::RawWindowHandle`: tells its variants apart and
/// takes the raw value out of those that a backend consumes. Every other
/// variant reads as `Other`, with the text that the crate's `Debug` gives for
/// it, which names the kind and the raw value.
///
/// Believed, not proved: the result depends on the handle alone, so it is
/// [`raw_reading`] of it; and a Win32, AppKit, XCB or Wayland handle reads as
/// not null. The crate holds the raw values of these four as `NonZeroIsize`,
/// `NonNull` and `NonZeroU32`, which have no zero. An Xlib window is a plain
/// integer, of which nothing more is claimed.
#[verifier::external_body]
pub(crate) fn read_raw_handle(raw: &RawWindowHandle) -> (handle: NativeWindowHandle)
    ensures
        handle == raw_reading(*raw),
        handle is Win32 || handle is AppKit || handle is Xcb || handle is Wayland
            ==> !handle.is_null_handle(),
{
    match raw {
        RawWindowHandle::Win32(h) => NativeWindowHandle::Win32 { hwnd: h.hwnd.get() },
        RawWindowHandle::AppKit(h) => NativeWindowHandle::AppKit { ns_view: h.ns_view.addr().get() },
        RawWindowHandle::Xlib(h) => NativeWindowHandle::Xlib { window: u64::from(h.window) },
        RawWindowHandle::Xcb(h) => NativeWindowHandle::Xcb { window: h.window.get() },
        RawWindowHandle::Wayland(h) => NativeWindowHandle::Wayland { surface: h.surface.addr().get() },
        _ => NativeWindowHandle::Other { description: format!("{:?}", raw) },
    }
}

impl NativeWindowHandle {
    /// The backend that consumes this kind of handle, if there is one.
    pub open spec fn platform_of(self) -> Option<Platform> {
        match self {
            NativeWindowHandle::Win32 { .. } => Some(Platform::Windows),
            NativeWindowHandle::AppKit { .. } => Some(Platform::MacOs),
            NativeWindowHandle::Xlib { .. } => Some(Platform::Linux),
            NativeWindowHandle::Xcb { .. } => Some(Platform::Linux),
            NativeWindowHandle::Wayland { .. } => Some(Platform::Linux),
            NativeWindowHandle::Other { .. } => None,
        }
    }

    /// Whether the backend `platform` consumes this kind of handle.
    pub open spec fn belongs_to(self, platform: Platform) -> bool {
        self.platform_of() == Some(platform)
    }

    /// The raw value of the handle. A handle that no backend consumes has
    /// none, and counts as null.
    pub open spec fn raw_value(self) -> int {
        match self {
            NativeWindowHandle::Win32 { hwnd } => hwnd as int,
            NativeWindowHandle::AppKit { ns_view } => ns_view as int,
            NativeWindowHandle::Xlib { window } => window as int,
            NativeWindowHandle::Xcb { window } => window as int,
            NativeWindowHandle::Wayland { surface } => surface as int,
            NativeWindowHandle::Other { .. } => 0,
        }
    }

    /// Whether the handle refers to no native object at all.
    pub open spec fn is_null_handle(self) -> bool {
        self.raw_value() == 0
    }

    /// Returns the backend that consumes this kind of handle, if there is
    /// one.
    pub fn platform(&self) -> (platform: Option<Platform>)
        ensures
            platform == self.platform_of(),
    {
        match self {
            NativeWindowHandle::Win32 { .. } => Some(Platform::Windows),
            NativeWindowHandle::AppKit { .. } => Some(Platform::MacOs),
            NativeWindowHandle::Xlib { .. } => Some(Platform::Linux),
            NativeWindowHandle::Xcb { .. } => Some(Platform::Linux),
            NativeWindowHandle::Wayland { .. } => Some(Platform::Linux),
            NativeWindowHandle::Other { .. } => None,
        }
    }

    /// Returns whether the backend `platform` consumes this kind of handle.
    pub fn matches_platform(&self, platform: Platform) -> (matches: bool)
        ensures
            matches == self.belongs_to(platform),
    {
        match self.platform() {
            Some(own) => own == platform,
            None => false,
        }
    }

    /// Returns whether the handle is the null handle of its kind.
    pub fn is_null(&self) -> (null: bool)
        ensures
            null == self.is_null_handle(),
    {
        match self {
            NativeWindowHandle::Win32 { hwnd } => *hwnd == 0,
            NativeWindowHandle::AppKit { ns_view } => *ns_view == 0,
            NativeWindowHandle::Xlib { window } => *window == 0,
            NativeWindowHandle::Xcb { window } => *window == 0,
            NativeWindowHandle::Wayland { surface } => *surface == 0,
            NativeWindowHandle::Other { .. } => true,
        }
    }
}

/// What validation of `handle` on the backend `platform` yields before the
/// platform is asked anything: a handle of another backend is a mismatch, a
/// null handle is invalid, any other handle passes unchanged.
pub open spec fn validated(platform: Platform, handle: NativeWindowHandle) -> Result<
    NativeWindowHandle,
    AttachError,
> {
    if !handle.belongs_to(platform) {
        Err(AttachError::HandleMismatch(handle))
    } else if handle.is_null_handle() {
        Err(AttachError::InvalidHandle(handle))
    } else {
        Ok(handle)
    }
}

/// What the liveness answer of the platform makes of a handle that passed
/// [`validated`]: a dead handle is invalid.
pub open spec fn confirmed(handle: NativeWindowHandle, alive: bool) -> Result<
    NativeWindowHandle,
    AttachError,
> {
    if alive {
        Ok(handle)
    } else {
        Err(AttachError::InvalidHandle(handle))
    }
}

/// Checks that `handle` is of the kind that `platform` consumes and is not
/// null. Nothing is changed and the platform is not asked.
pub fn validate_handle(platform: Platform, handle: NativeWindowHandle) -> (result: Result<
    NativeWindowHandle,
    AttachError,
>)
    ensures
        result == validated(platform, handle),
        result is Ok <==> handle.belongs_to(platform) && !handle.is_null_handle(),
        result is Ok ==> result == Ok::<NativeWindowHandle, AttachError>(handle),
{
    if !handle.matches_platform(platform) {
        Err(AttachError::HandleMismatch(handle))
    } else if handle.is_null() {
        Err(AttachError::InvalidHandle(handle))
    } else {
        Ok(handle)
    }
}

/// Completes validation with the platform's answer to the liveness query:
/// `alive` says whether the native object behind `handle` exists right now.
pub fn confirm_liveness(handle: NativeWindowHandle, alive: bool) -> (result: Result<
    NativeWindowHandle,
    AttachError,
>)
    ensures
        result == confirmed(handle, alive),
{
    if alive {
        Ok(handle)
    } else {
        Err(AttachError::InvalidHandle(handle))
    }
}

} // verus!
