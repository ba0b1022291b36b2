//! Attaching a toolkit window to a native window that a host owns.
//!
//! A host hands over a native window handle. The library validates it, derives
//! an initialization record from what the platform reports about the existing
//! window, builds the window state with every host-controlled capability
//! switched off, and binds the state to the handle so that native events can
//! find it again. The host, which keeps control of size, placement, visibility
//! and lifetime, reports its own changes through explicit notifications.
//!
//! The platform itself is never called from here. Each step that needs it is
//! returned as a [`NativeCall`](platform::NativeCall); the caller performs the
//! call and hands the answer back.

pub mod attach;
pub mod binding;
pub mod error;
pub mod geometry;
pub mod guarantees;
pub mod handle;
pub mod options;
pub mod platform;
pub mod record;
pub mod window;

pub use attach::{AttachSession, AttachStage, AttachState, AttachStep, StepModel};
pub use binding::{BindingTable, HandleBinding};
pub use error::{AttachError, BindingFailure};
pub use geometry::{ClientRect, DeviceSize, DisplayInfo, ScaleFactor, Size, WindowAppearance};
pub use handle::{confirm_liveness, validate_handle, NativeWindowHandle, Platform};
pub use options::{TitlebarOptions, WindowOptions, WindowParams};
pub use platform::{NativeCall, NativeReply};
pub use record::{InitializationBuilder, InitializationRecord};
pub use window::{
    AnyWindowHandle, CallbackId, Callbacks, ResizeDispatch, WindowCreationInfo, WindowsWindow,
    WindowsWindowInner, WindowsWindowState,
};
