//! The ways in which attaching can fail, and what is only reported.

use vstd::prelude::*;
use crate::handle::NativeWindowHandle;

verus! {

/// Why an attach request failed. After any of these no binding is installed.
#[derive(Clone, Debug, PartialEq, Eq)]
pub enum AttachError {
    /// The handle is of a kind that another platform backend consumes.
    HandleMismatch(NativeWindowHandle),
    /// The handle is null, or the platform knows no live object by it.
    InvalidHandle(NativeWindowHandle),
    /// The platform could not report the geometry of the native window.
    GeometryUnavailable,
}

/// An optional per-window integration that could not be set up. The window
/// stays usable, so this is reported beside a successful attach.
#[derive(Clone, Copy, Debug, PartialEq, Eq, Structural)]
pub enum BindingFailure {
    /// The window could not be registered as a drag-and-drop target.
    DropTarget { hwnd: isize },
}

} // verus!
