//! Plain geometry and display values that the platform reports.

use vstd::prelude::*;

verus! {

/// A width and a height in logical pixels.
#[derive(Clone, Copy, Debug, PartialEq, Eq, Structural)]
pub struct Size {
    pub width: i64,
    pub height: i64,
}

/// The client rectangle of a native window, as the platform reports it.
#[derive(Clone, Copy, Debug, PartialEq, Eq, Structural)]
pub struct ClientRect {
    pub left: i32,
    pub top: i32,
    pub right: i32,
    pub bottom: i32,
}

impl ClientRect {
    /// The extent of the rectangle: right minus left, bottom minus top.
    pub open spec fn extent(self) -> Size {
        Size {
            width: (self.right - self.left) as i64,
            height: (self.bottom - self.top) as i64,
        }
    }

    /// Computes the extent of the rectangle. The differences are taken in 64
    /// bits, so no rectangle overflows.
    pub fn size(&self) -> (size: Size)
        ensures
            size == self.extent(),
            size.width == self.right - self.left,
            size.height == self.bottom - self.top,
    {
        let width: i64 = self.right as i64 - self.left as i64;
        let height: i64 = self.bottom as i64 - self.top as i64;
        Size { width, height }
    }
}

/// The scale at which a display shows logical pixels, held as dots per inch.
/// 96 dots per inch is a scale of one.
#[derive(Clone, Copy, Debug, PartialEq, Eq, Structural)]
pub struct ScaleFactor {
    pub dpi: u32,
}

/// A width and a height in device pixels. The extents are held in 128 bits,
/// so that no logical size at any resolution overflows.
#[derive(Clone, Copy, Debug, PartialEq, Eq, Structural)]
pub struct DeviceSize {
    pub width: i128,
    pub height: i128,
}

impl ScaleFactor {
    /// The extent in device pixels of `extent` logical pixels: the extent
    /// times the resolution over 96, rounded up.
    pub open spec fn device_extent(self, extent: int) -> int {
        (extent * self.dpi + 95) / 96
    }

    /// The size in device pixels of the logical size `size`.
    pub open spec fn device_size(self, size: Size) -> DeviceSize {
        DeviceSize {
            width: self.device_extent(size.width as int) as i128,
            height: self.device_extent(size.height as int) as i128,
        }
    }

    /// Computes the extent in device pixels of `extent` logical pixels.
    pub fn to_device_extent(&self, extent: i64) -> (device: i128)
        ensures
            device == self.device_extent(extent as int),
    {
        let dpi: u32 = self.dpi;
        assert(-0x8000_0000_0000_0000 * 0x1_0000_0000 <= extent * dpi <= 0x8000_0000_0000_0000
            * 0x1_0000_0000) by (nonlinear_arith)
            requires
                -0x8000_0000_0000_0000 <= extent < 0x8000_0000_0000_0000,
                0 <= dpi < 0x1_0000_0000,
        ;
        let scaled: i128 = extent as i128 * dpi as i128 + 95;
        if scaled >= 0 {
            scaled / 96
        } else {
            let up: i128 = (-scaled + 95) / 96;
            -up
        }
    }

    /// Computes the size in device pixels of the logical size `size`.
    pub fn to_device_size(&self, size: Size) -> (device: DeviceSize)
        ensures
            device == self.device_size(size),
            device.width == self.device_extent(size.width as int),
            device.height == self.device_extent(size.height as int),
    {
        DeviceSize {
            width: self.to_device_extent(size.width),
            height: self.to_device_extent(size.height),
        }
    }
}

/// The display that a native window currently resides on.
#[derive(Clone, Copy, Debug, PartialEq, Eq, Structural)]
pub struct DisplayInfo {
    /// The platform's identifier of the monitor.
    pub monitor: isize,
    /// The monitor's resolution in dots per inch.
    pub dpi: u32,
}

impl DisplayInfo {
    /// The scale factor of the display.
    pub open spec fn scale(self) -> ScaleFactor {
        ScaleFactor { dpi: self.dpi }
    }

    /// Returns the scale factor of the display.
    pub fn scale_factor(&self) -> (scale: ScaleFactor)
        ensures
            scale == self.scale(),
    {
        ScaleFactor { dpi: self.dpi }
    }
}

/// The system-wide appearance.
#[derive(Clone, Copy, Debug, PartialEq, Eq, Structural)]
pub enum WindowAppearance {
    Light,
    Dark,
}

impl Default for WindowAppearance {
    /// The appearance assumed when the system reports none: light.
    fn default() -> (appearance: WindowAppearance)
        ensures
            appearance == WindowAppearance::Light,
    {
        WindowAppearance::Light
    }
}

} // verus!
