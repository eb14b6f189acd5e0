//! Screen geometry in physical pixels, and the rule that anchors the overlay
//! window in the top-right corner of its monitor.

use vstd::prelude::*;

verus! {

/// Gap in physical pixels between the window's right edge and the monitor's.
pub const MARGIN_X: i64 = 20;

/// Distance in physical pixels from the top of the monitor, enough to clear a
/// menu bar.
pub const TOP_OFFSET: i64 = 40;

/// Width and height of a monitor or of a window's outer frame.
#[derive(Clone, Copy, Debug, PartialEq, Eq, Structural)]
pub struct PhysicalSize {
    pub width: u32,
    pub height: u32,
}

/// A display, as it was when the host last asked for it. Monitors are never
/// remembered: the one a window is on can change between two placements.
#[derive(Clone, Copy, Debug, PartialEq, Eq, Structural)]
pub struct Monitor {
    pub size: PhysicalSize,
}

/// Absolute position of a window's top-left corner on the desktop.
///
/// The coordinates are wider than the 32 bits a windowing system takes, so
/// that the anchor of any pair of sizes is exact.
#[derive(Clone, Copy, Debug, PartialEq, Eq, Structural)]
pub struct PhysicalPosition {
    pub x: i64,
    pub y: i64,
}

/// The horizontal anchor: the window's left edge lies `MARGIN_X` plus its own
/// width to the left of the monitor's right edge.
pub open spec fn anchor_x(monitor_width: int, window_width: int) -> int {
    monitor_width - window_width - MARGIN_X
}

/// The anchor of a window of size `window` on `monitor`.
pub open spec fn anchor(monitor: Monitor, window: PhysicalSize) -> PhysicalPosition {
    PhysicalPosition {
        x: anchor_x(monitor.size.width as int, window.width as int) as i64,
        y: TOP_OFFSET,
    }
}

/// Where placement puts the window: at its anchor when a monitor is known,
/// nowhere when none is.
pub open spec fn placement(
    monitor: Option<Monitor>,
    window: PhysicalSize,
) -> Option<PhysicalPosition> {
    match monitor {
        Some(m) => Some(anchor(m, window)),
        None => None,
    }
}

/// Whether both coordinates fit the signed 32-bit range of device coordinates.
pub open spec fn fits_device(p: PhysicalPosition) -> bool {
    i32::MIN <= p.x <= i32::MAX && i32::MIN <= p.y <= i32::MAX
}

/// Computes the anchor of a window on a monitor.
///
/// The result is never clamped: a window wider than its monitor gets a
/// negative `x` and hangs over the left edge.
pub fn tray_anchor(monitor: Monitor, window: PhysicalSize) -> (p: PhysicalPosition)
    ensures
        p == anchor(monitor, window),
        p.x == monitor.size.width - window.width - 20,
        p.y == 40,
        monitor.size.width >= window.width ==> p.x >= -20,
        monitor.size.width < window.width ==> p.x < -20,
        p.x < 0 <==> monitor.size.width < window.width + 20,
{
    let x: i64 = monitor.size.width as i64 - window.width as i64 - MARGIN_X;
    PhysicalPosition { x, y: TOP_OFFSET }
}

/// Decides where to move the window given the monitor it is on, if any.
///
/// Without a monitor there is nothing to do, and that is a success: the
/// result is `None` and the window stays where it is.
pub fn place_near_tray(
    monitor: Option<Monitor>,
    window: PhysicalSize,
) -> (target: Option<PhysicalPosition>)
    ensures
        target == placement(monitor, window),
        monitor is None <==> target is None,
        monitor matches Some(m) ==> target == Some(
            PhysicalPosition { x: (m.size.width - window.width - 20) as i64, y: 40 },
        ),
{
    match monitor {
        Some(m) => Some(tray_anchor(m, window)),
        None => None,
    }
}

impl PhysicalPosition {
    /// The position as the pair of 32-bit coordinates a windowing system
    /// takes, or `None` where a coordinate is out of that range.
    pub fn device_coordinates(&self) -> (pair: Option<(i32, i32)>)
        ensures
            pair is Some <==> fits_device(*self),
            pair matches Some((x, y)) ==> x == self.x && y == self.y,
    {
        let lowest: i64 = i32::MIN as i64;
        let highest: i64 = i32::MAX as i64;
        if lowest <= self.x && self.x <= highest && lowest <= self.y && self.y <= highest {
            Some((self.x as i32, self.y as i32))
        } else {
            None
        }
    }
}

} // verus!
