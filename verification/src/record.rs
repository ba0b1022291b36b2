//! The initialization record of an attached window. A window that the toolkit
//! creates gets this record from native window creation; for a window that
//! already exists it is derived from what the platform reports about it.

use vstd::prelude::*;
use crate::error::AttachError;
use crate::geometry::{ClientRect, DisplayInfo, Size, WindowAppearance};

verus! {

/// The record from which window state is constructed.
#[derive(Clone, Copy, Debug, PartialEq, Eq)]
pub struct InitializationRecord {
    /// The width of the client area.
    pub cx: i64,
    /// The height of the client area.
    pub cy: i64,
    /// The display that the window resides on.
    pub display: DisplayInfo,
    /// The system appearance.
    pub appearance: WindowAppearance,
    /// The requested position. Unused for an existing window.
    pub x: i32,
    pub y: i32,
    /// The requested window styles. Unused for an existing window.
    pub style: u32,
    pub ex_style: u32,
    /// The parent window, module instance and menu of the creation request,
    /// and the atom of the registered window class. Unused for an existing
    /// window.
    pub parent: isize,
    pub instance: isize,
    pub menu: isize,
    pub class_atom: u16,
}

impl InitializationRecord {
    /// Whether every field that only a creation request fills is zero.
    pub open spec fn is_neutral(self) -> bool {
        &&& self.x == 0
        &&& self.y == 0
        &&& self.style == 0
        &&& self.ex_style == 0
        &&& self.parent == 0
        &&& self.instance == 0
        &&& self.menu == 0
        &&& self.class_atom == 0
    }

    /// The client area of the record.
    pub open spec fn client_size(self) -> Size {
        Size { width: self.cx, height: self.cy }
    }

    /// The record of an existing window with the given client area, display
    /// and appearance.
    pub open spec fn synthetic(
        size: Size,
        display: DisplayInfo,
        appearance: WindowAppearance,
    ) -> InitializationRecord {
        InitializationRecord {
            cx: size.width,
            cy: size.height,
            display,
            appearance,
            x: 0,
            y: 0,
            style: 0,
            ex_style: 0,
            parent: 0,
            instance: 0,
            menu: 0,
            class_atom: 0,
        }
    }
}

/// Collects what the platform reports about an existing native window, and
/// turns it into an [`InitializationRecord`] once geometry and display are
/// there.
#[derive(Clone, Copy, Debug, PartialEq, Eq)]
pub struct InitializationBuilder {
    pub client_rect: Option<ClientRect>,
    pub display: Option<DisplayInfo>,
    pub appearance: Option<WindowAppearance>,
}

impl InitializationBuilder {
    /// The builder that holds nothing yet.
    pub open spec fn empty() -> InitializationBuilder {
        InitializationBuilder { client_rect: None, display: None, appearance: None }
    }

    /// Whether the builder holds what a record cannot do without: the client
    /// rectangle and the display.
    pub open spec fn is_complete(self) -> bool {
        self.client_rect is Some && self.display is Some
    }

    /// The appearance that the record gets: the reported one, or light where
    /// none was reported.
    pub open spec fn appearance_or_default(self) -> WindowAppearance {
        match self.appearance {
            Some(appearance) => appearance,
            None => WindowAppearance::Light,
        }
    }

    /// What [`build`](Self::build) yields: the synthetic record of a complete
    /// builder, and `GeometryUnavailable` for any other.
    pub open spec fn built(self) -> Result<InitializationRecord, AttachError> {
        if self.is_complete() {
            Ok(
                InitializationRecord::synthetic(
                    self.client_rect->0.extent(),
                    self.display->0,
                    self.appearance_or_default(),
                ),
            )
        } else {
            Err(AttachError::GeometryUnavailable)
        }
    }

    /// Creates a builder that holds nothing yet.
    pub fn new() -> (builder: InitializationBuilder)
        ensures
            builder == Self::empty(),
    {
        InitializationBuilder { client_rect: None, display: None, appearance: None }
    }

    /// Records the display that the window resides on.
    pub fn with_display(self, display: DisplayInfo) -> (builder: InitializationBuilder)
        ensures
            builder == (InitializationBuilder { display: Some(display), ..self }),
    {
        InitializationBuilder { display: Some(display), ..self }
    }

    /// Records the system appearance, or that the platform reported none.
    pub fn with_appearance(self, appearance: Option<WindowAppearance>) -> (builder:
        InitializationBuilder)
        ensures
            builder == (InitializationBuilder { appearance, ..self }),
    {
        InitializationBuilder { appearance, ..self }
    }

    /// Records the client rectangle, or that the platform could not report it.
    pub fn with_client_rect(self, client_rect: Option<ClientRect>) -> (builder:
        InitializationBuilder)
        ensures
            builder == (InitializationBuilder { client_rect, ..self }),
    {
        InitializationBuilder { client_rect, ..self }
    }

    /// Builds the record. The client area is the extent of the client
    /// rectangle; every field that only a creation request fills is zero.
    /// Fails with `GeometryUnavailable` when the client rectangle or the
    /// display is missing, and only then.
    pub fn build(&self) -> (result: Result<InitializationRecord, AttachError>)
        ensures
            result == self.built(),
            result is Ok <==> self.is_complete(),
            result matches Ok(record) ==> record.is_neutral() && record.client_size()
                == self.client_rect->0.extent(),
    {
        match (self.client_rect, self.display) {
            (Some(rect), Some(display)) => {
                let size = rect.size();
                let appearance = match self.appearance {
                    Some(appearance) => appearance,
                    None => WindowAppearance::default(),
                };
                Ok(
                    InitializationRecord {
                        cx: size.width,
                        cy: size.height,
                        display,
                        appearance,
                        x: 0,
                        y: 0,
                        style: 0,
                        ex_style: 0,
                        parent: 0,
                        instance: 0,
                        menu: 0,
                        class_atom: 0,
                    },
                )
            },
            _ => Err(AttachError::GeometryUnavailable),
        }
    }
}

} // verus!
