//! The calls that the window layer makes on a native window, and the answers
//! that an attach request waits for. The library issues calls as values and
//! takes the answers as values; whoever drives it performs them.

use vstd::prelude::*;
use crate::geometry::{ClientRect, DisplayInfo, Size, WindowAppearance};

verus! {

/// A call on the platform, by what it asks for.
#[derive(Clone, Copy, Debug, PartialEq, Eq)]
pub enum NativeCall {
    /// Ask whether a live native window stands behind the handle.
    CheckAlive { hwnd: isize },
    /// Ask for the display that the window resides on.
    LocateDisplay { hwnd: isize },
    /// Ask for the system appearance.
    ReadAppearance,
    /// Ask for the client rectangle of the window.
    MeasureClientArea { hwnd: isize },
    /// Register the window as a drag-and-drop target.
    RegisterDropTarget { hwnd: isize },
    /// Make the window visible.
    Show { hwnd: isize },
    /// Give the window the keyboard focus.
    Focus { hwnd: isize },
    /// Move the window.
    Move { hwnd: isize, x: i32, y: i32 },
    /// Give the window another size.
    Resize { hwnd: isize, size: Size },
    /// Close the window.
    Close { hwnd: isize },
}

impl NativeCall {
    /// Whether the call decides visibility, focus, placement, size or
    /// lifetime of the window: what the host alone decides for a window it
    /// owns.
    pub open spec fn is_host_controlled(self) -> bool {
        match self {
            NativeCall::Show { .. } => true,
            NativeCall::Focus { .. } => true,
            NativeCall::Move { .. } => true,
            NativeCall::Resize { .. } => true,
            NativeCall::Close { .. } => true,
            _ => false,
        }
    }

    /// Whether the call only reads from the platform.
    pub open spec fn is_query(self) -> bool {
        match self {
            NativeCall::CheckAlive { .. } => true,
            NativeCall::LocateDisplay { .. } => true,
            NativeCall::ReadAppearance => true,
            NativeCall::MeasureClientArea { .. } => true,
            _ => false,
        }
    }

    /// Returns whether the call is one that the host alone decides.
    pub fn host_controlled(&self) -> (controlled: bool)
        ensures
            controlled == self.is_host_controlled(),
    {
        match self {
            NativeCall::Show { .. } => true,
            NativeCall::Focus { .. } => true,
            NativeCall::Move { .. } => true,
            NativeCall::Resize { .. } => true,
            NativeCall::Close { .. } => true,
            _ => false,
        }
    }
}

/// The platform's answer to a call that an attach request issued.
#[derive(Clone, Copy, Debug, PartialEq, Eq)]
pub enum NativeReply {
    /// Whether the native window is alive.
    Alive(bool),
    /// The display that the window resides on.
    Display(DisplayInfo),
    /// The system appearance, or `None` where the platform could not tell.
    Appearance(Option<WindowAppearance>),
    /// The client rectangle, or `None` where the query failed.
    ClientArea(Option<ClientRect>),
    /// Whether the window was registered as a drag-and-drop target.
    DropTarget(bool),
}

} // verus!
