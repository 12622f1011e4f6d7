//! The state of the overlay on which a person draws a search region.
//!
//! Rendering and pointer events belong to the windowing layer; this module
//! holds what they change. Pointer positions are whole logical points.
use crate::geometry::Coordinate;
use vstd::prelude::*;

verus! {

/// A pointer position on the overlay, in whole logical points.
#[derive(Debug, Clone, Copy, PartialEq, Eq, Structural)]
pub struct PointerPos {
    pub x: u16,
    pub y: u16,
}

/// A rectangle drawn on the overlay, from its top-left to its bottom-right.
#[derive(Debug, Clone, Copy, PartialEq, Eq, Structural)]
pub struct DragRect {
    pub min_x: u16,
    pub min_y: u16,
    pub max_x: u16,
    pub max_y: u16,
}

pub open spec fn min_u16(a: u16, b: u16) -> u16 {
    if a <= b {
        a
    } else {
        b
    }
}

pub open spec fn max_u16(a: u16, b: u16) -> u16 {
    if a >= b {
        a
    } else {
        b
    }
}

/// The rectangle spanned by two corners, whichever way the drag went.
pub open spec fn spanned(anchor: PointerPos, pointer: PointerPos) -> DragRect {
    DragRect {
        min_x: min_u16(anchor.x, pointer.x),
        min_y: min_u16(anchor.y, pointer.y),
        max_x: max_u16(anchor.x, pointer.x),
        max_y: max_u16(anchor.y, pointer.y),
    }
}

impl DragRect {
    /// The rectangle spanned by the drag's starting point and the pointer.
    pub fn spanning(anchor: PointerPos, pointer: PointerPos) -> (r: DragRect)
        ensures
            r == spanned(anchor, pointer),
    {
        DragRect {
            min_x: if anchor.x <= pointer.x {
                anchor.x
            } else {
                pointer.x
            },
            min_y: if anchor.y <= pointer.y {
                anchor.y
            } else {
                pointer.y
            },
            max_x: if anchor.x >= pointer.x {
                anchor.x
            } else {
                pointer.x
            },
            max_y: if anchor.y >= pointer.y {
                anchor.y
            } else {
                pointer.y
            },
        }
    }

    /// The rectangle as a search region: origin, width and height.
    pub fn to_search_region(&self) -> (r: (Coordinate, Coordinate, Coordinate, Coordinate))
        requires
            self.min_x <= self.max_x,
            self.min_y <= self.max_y,
        ensures
            r.0.val == self.min_x,
            r.1.val == self.min_y,
            r.2.val == self.max_x - self.min_x,
            r.3.val == self.max_y - self.min_y,
    {
        (
            Coordinate::scaled(self.min_x as u32),
            Coordinate::scaled(self.min_y as u32),
            Coordinate::scaled((self.max_x - self.min_x) as u32),
            Coordinate::scaled((self.max_y - self.min_y) as u32),
        )
    }
}

/// The drawing tool: the rectangle drawn so far, the point the drag
/// started from, and whether a drag is under way.
#[derive(Debug, Clone, Copy, PartialEq, Eq, Structural)]
pub struct GrabBox {
    pub rect: Option<DragRect>,
    pub anchor: Option<PointerPos>,
    pub dragging: bool,
}

impl Default for GrabBox {
    fn default() -> (r: GrabBox)
        ensures
            r == (GrabBox { rect: None, anchor: None, dragging: false }),
    {
        GrabBox { rect: None, anchor: None, dragging: false }
    }
}

impl GrabBox {
    /// One frame of the overlay with the pointer at `pointer`. A drag that
    /// starts now begins a new rectangle at the pointer; while dragging, the
    /// rectangle spans the drag's start and the pointer; a drag that stops
    /// now ends the dragging and keeps the rectangle.
    pub fn update(&mut self, pointer: PointerPos, drag_started: bool, drag_stopped: bool)
        ensures
            ({
                let started = if drag_started {
                    GrabBox {
                        rect: Some(spanned(pointer, pointer)),
                        anchor: Some(pointer),
                        dragging: true,
                    }
                } else {
                    *old(self)
                };
                let moved = if started.dragging && started.rect is Some && started.anchor is Some {
                    GrabBox {
                        rect: Some(spanned(started.anchor.unwrap(), pointer)),
                        ..started
                    }
                } else {
                    started
                };
                *final(self) == if drag_stopped {
                    GrabBox { dragging: false, ..moved }
                } else {
                    moved
                }
            }),
    {
        if drag_started {
            self.dragging = true;
            self.rect = Some(DragRect::spanning(pointer, pointer));
            self.anchor = Some(pointer);
        }
        if self.dragging {
            match (self.rect, self.anchor) {
                (Some(_), Some(anchor)) => {
                    self.rect = Some(DragRect::spanning(anchor, pointer));
                },
                _ => {},
            }
        }
        if drag_stopped {
            self.dragging = false;
        }
    }
}

/// The overlay: a drawing tool while one is open.
#[derive(Debug, Clone, Copy, PartialEq, Eq, Structural)]
pub struct MyApp {
    pub action_state: Option<GrabBox>,
}

impl Default for MyApp {
    fn default() -> (r: MyApp)
        ensures
            r.action_state is None,
    {
        MyApp { action_state: None }
    }
}

impl MyApp {
    /// "Draw" was chosen: a fresh drawing tool opens.
    pub fn on_draw(&mut self)
        ensures
            final(self).action_state == Some(GrabBox { rect: None, anchor: None, dragging: false }),
    {
        self.action_state = Some(GrabBox::default());
    }

    /// The drawing tool was dismissed.
    pub fn on_dismiss(&mut self)
        ensures
            final(self).action_state is None,
    {
        self.action_state = None;
    }

    /// Whether the pointer passes through the overlay to the windows below:
    /// only while no drawing tool is open.
    pub fn mouse_passthrough(&self) -> (r: bool)
        ensures
            r == (self.action_state is None),
    {
        self.action_state.is_none()
    }
}

} // verus!
