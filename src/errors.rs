//! Typed failures, so that callers can tell one kind from another.
use vstd::prelude::*;

verus! {

/// A point, or a shifted point, would lie off the screen.
#[derive(Debug, Clone, Copy, PartialEq, Eq, Structural)]
pub struct ScreenCoordinateError {
    /// The requested horizontal position, in scaled units.
    pub x: i128,
    /// The requested vertical position, in scaled units.
    pub y: i128,
    /// The screen width the request was checked against.
    pub width: u32,
    /// The screen height the request was checked against.
    pub height: u32,
}

/// A region, in physical pixels, does not fit inside a captured frame.
#[derive(Debug, Clone, Copy, PartialEq, Eq, Structural)]
pub struct OutOfBoundsError {
    /// Left edge of the region.
    pub x: u64,
    /// Top edge of the region.
    pub y: u64,
    /// Width of the region.
    pub width: u64,
    /// Height of the region.
    pub height: u64,
    /// Width of the frame.
    pub frame_width: u32,
    /// Height of the frame.
    pub frame_height: u32,
}

/// The interface did not reach the awaited state before the deadline.
#[derive(Debug, Clone, Copy, PartialEq, Eq, Structural)]
pub struct UIActionTimeOutError {
    /// The time allowed, in milliseconds.
    pub timeout_ms: u64,
    /// The time that had passed when the wait gave up, in milliseconds.
    pub elapsed_ms: u64,
    /// Whether an unchanged (`true`) or a changed (`false`) interface was awaited.
    pub is_same: bool,
}

} // verus!
