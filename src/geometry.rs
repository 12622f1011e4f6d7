//! Screen-bounded geometry.
//!
//! Every value here is in scaled (logical) units, the units of the screen
//! size. Captured frames are in physical pixels; the device scale factor,
//! held as a whole percentage (`100` for 1.0, `200` for 2.0), converts
//! between the two. Points reject positions off the screen; rectangles are
//! truncated so that they always lie on it.
use crate::errors::ScreenCoordinateError;
use vstd::prelude::*;

verus! {

/// The screen the geometry is bounded by: its size in scaled units and the
/// device scale factor, as a percentage.
#[derive(Debug, Clone, Copy, PartialEq, Eq, Structural)]
pub struct Screen {
    pub width: u32,
    pub height: u32,
    pub scale_percent: u32,
}

/// A physical-pixel value expressed in scaled units; values at or below zero
/// stand for the origin.
pub open spec fn scaled_of(raw: int, scale_percent: int) -> int {
    if raw <= 0 {
        0
    } else {
        raw * 100 / scale_percent
    }
}

/// The physical-pixel extent of a scaled value, rounded up.
pub open spec fn physical_of(v: int, scale_percent: int) -> int {
    (v * scale_percent + 99) / 100
}

/// Whether a position in scaled units lies on the screen, edges included.
pub open spec fn point_fits(x: int, y: int, screen: Screen) -> bool {
    0 <= x <= screen.width && 0 <= y <= screen.height
}

/// What making a point at `(x, y)` gives: the point when it lies on the
/// screen, else the error that names the position and the screen size.
pub open spec fn point_at(x: int, y: int, screen: Screen) -> Result<
    ScreenCoordinates,
    ScreenCoordinateError,
> {
    if point_fits(x, y, screen) {
        Ok(ScreenCoordinates { x: x as u64, y: y as u64 })
    } else {
        Err(
            ScreenCoordinateError {
                x: x as i128,
                y: y as i128,
                width: screen.width,
                height: screen.height,
            },
        )
    }
}

/// The rectangle in physical pixels that covers a scaled one.
pub open spec fn physical_rect(r: ScreenRect, scale_percent: int) -> PhysicalRect {
    PhysicalRect {
        x: physical_of(r.x as int, scale_percent) as u64,
        y: physical_of(r.y as int, scale_percent) as u64,
        width: physical_of(r.width as int, scale_percent) as u64,
        height: physical_of(r.height as int, scale_percent) as u64,
    }
}

/// The rectangle with the given `(x, y, width, height)`.
pub open spec fn rect_from(t: (int, int, int, int)) -> ScreenRect {
    ScreenRect { x: t.0 as u64, y: t.1 as u64, width: t.2 as u64, height: t.3 as u64 }
}

pub open spec fn min_of(a: int, b: int) -> int {
    if a <= b {
        a
    } else {
        b
    }
}

impl Screen {
    /// A usable screen has a positive scale factor.
    pub open spec fn wf(&self) -> bool {
        self.scale_percent > 0
    }

    /// Describes a screen; `None` when the scale factor is zero.
    pub fn new(width: u32, height: u32, scale_percent: u32) -> (r: Option<Screen>)
        ensures
            r is Some <==> scale_percent > 0,
            r matches Some(s) ==> s.width == width && s.height == height && s.scale_percent
                == scale_percent,
    {
        if scale_percent > 0 {
            Some(Screen { width, height, scale_percent })
        } else {
            None
        }
    }
}

/// A physical-pixel value converted to scaled units.
pub fn scale_down(raw: u64, screen: &Screen) -> (r: u128)
    requires
        screen.wf(),
    ensures
        r == scaled_of(raw as int, screen.scale_percent as int),
        r <= 100 * raw,
{
    if raw == 0 {
        0
    } else {
        let s = screen.scale_percent as u128;
        proof {
            lemma_div_bounds(raw * 100, s as int);
            assert((raw * 100) / (s as int) <= s * ((raw * 100) / (s as int))) by (nonlinear_arith)
                requires
                    s >= 1,
                    (raw * 100) / (s as int) >= 0,
            ;
        }
        (raw as u128) * 100 / s
    }
}

/// A scaled value converted to physical pixels, rounding up.
pub fn to_physical(v: u64, screen: &Screen) -> (r: u64)
    requires
        v <= u32::MAX,
    ensures
        r == physical_of(v as int, screen.scale_percent as int),
        r < 0x400_0000_0000_0000,
{
    proof {
        lemma_physical_bound(v as int, screen.scale_percent as int);
    }
    let s = screen.scale_percent as u64;
    assert(v * s <= 0xffff_ffff * 0xffff_ffff) by (nonlinear_arith)
        requires
            v <= 0xffff_ffff,
            s <= 0xffff_ffff,
    ;
    (v * s + 99) / 100
}

/// One axis value in scaled units. It is never negative.
#[derive(Debug, Clone, Copy, PartialEq, Eq, Structural)]
pub struct Coordinate {
    pub val: u64,
}

impl Coordinate {
    /// Converts a raw physical-pixel value into scaled units through the
    /// screen's scale factor; values at or below zero give the origin.
    pub fn new(raw: i32, screen: &Screen) -> (c: Coordinate)
        requires
            screen.wf(),
        ensures
            c.val == scaled_of(raw as int, screen.scale_percent as int),
    {
        if raw > 0 {
            Coordinate { val: scale_down(raw as u64, screen) as u64 }
        } else {
            Coordinate { val: 0 }
        }
    }

    /// A value that is already in scaled units.
    pub fn scaled(val: u32) -> (c: Coordinate)
        ensures
            c.val == val,
    {
        Coordinate { val: val as u64 }
    }
}

/// A point on the screen, in scaled units. Only `new` and `shift` make one,
/// and both reject positions off the screen.
#[derive(Debug, Clone, Copy, PartialEq, Eq, Structural)]
pub struct ScreenCoordinates {
    pub x: u64,
    pub y: u64,
}

impl ScreenCoordinates {
    pub open spec fn wf(&self, screen: &Screen) -> bool {
        point_fits(self.x as int, self.y as int, *screen)
    }

    /// Makes a point; fails when either axis lies beyond the screen.
    pub fn new(x: Coordinate, y: Coordinate, screen: &Screen) -> (r: Result<
        ScreenCoordinates,
        ScreenCoordinateError,
    >)
        ensures
            r == point_at(x.val as int, y.val as int, *screen),
            r matches Ok(p) ==> p.wf(screen),
    {
        if x.val > screen.width as u64 || y.val > screen.height as u64 {
            Err(
                ScreenCoordinateError {
                    x: x.val as i128,
                    y: y.val as i128,
                    width: screen.width,
                    height: screen.height,
                },
            )
        } else {
            Ok(ScreenCoordinates { x: x.val, y: y.val })
        }
    }

    /// Makes a point from wide scaled values; fails when either lies beyond
    /// the screen.
    pub fn at(x: u128, y: u128, screen: &Screen) -> (r: Result<
        ScreenCoordinates,
        ScreenCoordinateError,
    >)
        ensures
            r == point_at(x as int, y as int, *screen),
            r matches Ok(p) ==> p.wf(screen),
    {
        if x > screen.width as u128 || y > screen.height as u128 {
            Err(
                ScreenCoordinateError {
                    x: x as i128,
                    y: y as i128,
                    width: screen.width,
                    height: screen.height,
                },
            )
        } else {
            Ok(ScreenCoordinates { x: x as u64, y: y as u64 })
        }
    }

    /// The point moved by `(dx, dy)` scaled units; fails when the result
    /// leaves the screen, on either side.
    pub fn shift(&self, dx: i64, dy: i64, screen: &Screen) -> (r: Result<
        ScreenCoordinates,
        ScreenCoordinateError,
    >)
        requires
            self.wf(screen),
        ensures
            r == point_at(self.x + dx, self.y + dy, *screen),
            r matches Ok(p) ==> p.wf(screen),
    {
        let nx: i128 = self.x as i128 + dx as i128;
        let ny: i128 = self.y as i128 + dy as i128;
        if nx < 0 || ny < 0 || nx > screen.width as i128 || ny > screen.height as i128 {
            Err(ScreenCoordinateError { x: nx, y: ny, width: screen.width, height: screen.height })
        } else {
            Ok(ScreenCoordinates { x: nx as u64, y: ny as u64 })
        }
    }

    /// A rectangle anchored at this point, with its sides truncated at the
    /// screen edges. It never fails.
    ///
    /// For the corner anchors each side is cut to the distance from the point
    /// to the screen edge it extends towards. For the centre both sides are
    /// cut to the shorter distance to either edge and the rectangle is placed
    /// with the point at its middle (half the side, rounded down, before it).
    pub fn generate_rect(
        &self,
        width: u64,
        height: u64,
        anchor: PointAsRectAnchor,
        screen: &Screen,
    ) -> (r: ScreenRect)
        requires
            self.wf(screen),
        ensures
            r.as_tuple() == anchored_rect(
                self.x as int,
                self.y as int,
                width as int,
                height as int,
                anchor,
                *screen,
            ),
            r.wf(screen),
    {
        let (x, y) = (self.x, self.y);
        let (sw, sh) = (screen.width as u64, screen.height as u64);
        let to_right = if width < sw - x {
            width
        } else {
            sw - x
        };
        let to_bottom = if height < sh - y {
            height
        } else {
            sh - y
        };
        let to_left = if width < x {
            width
        } else {
            x
        };
        let to_top = if height < y {
            height
        } else {
            y
        };
        match anchor {
            PointAsRectAnchor::TopLeft => ScreenRect { x, y, width: to_right, height: to_bottom },
            PointAsRectAnchor::TopRight => ScreenRect {
                x: x - to_left,
                y,
                width: to_left,
                height: to_bottom,
            },
            PointAsRectAnchor::BottomLeft => ScreenRect {
                x,
                y: y - to_top,
                width: to_right,
                height: to_top,
            },
            PointAsRectAnchor::BottomRight => ScreenRect {
                x: x - to_left,
                y: y - to_top,
                width: to_left,
                height: to_top,
            },
            PointAsRectAnchor::Center => {
                let rw = if to_left < to_right {
                    to_left
                } else {
                    to_right
                };
                let rh = if to_top < to_bottom {
                    to_top
                } else {
                    to_bottom
                };
                ScreenRect { x: x - rw / 2, y: y - rh / 2, width: rw, height: rh }
            },
        }
    }
}

/// Which point of a rectangle a given point stands for.
#[derive(Debug, Clone, Copy, PartialEq, Eq, Structural)]
pub enum PointAsRectAnchor {
    TopLeft,
    TopRight,
    BottomLeft,
    BottomRight,
    Center,
}

/// The rectangle `(x, y, width, height)` that `generate_rect` makes from the
/// point `(px, py)` and the requested size.
pub open spec fn anchored_rect(
    px: int,
    py: int,
    w: int,
    h: int,
    anchor: PointAsRectAnchor,
    screen: Screen,
) -> (int, int, int, int) {
    let to_right = min_of(w, screen.width - px);
    let to_bottom = min_of(h, screen.height - py);
    let to_left = min_of(w, px);
    let to_top = min_of(h, py);
    match anchor {
        PointAsRectAnchor::TopLeft => (px, py, to_right, to_bottom),
        PointAsRectAnchor::TopRight => (px - to_left, py, to_left, to_bottom),
        PointAsRectAnchor::BottomLeft => (px, py - to_top, to_right, to_top),
        PointAsRectAnchor::BottomRight => (px - to_left, py - to_top, to_left, to_top),
        PointAsRectAnchor::Center => {
            let rw = min_of(to_left, to_right);
            let rh = min_of(to_top, to_bottom);
            (px - rw / 2, py - rh / 2, rw, rh)
        },
    }
}

/// A rectangle on the screen, in scaled units.
#[derive(Debug, Clone, Copy, PartialEq, Eq, Structural)]
pub struct ScreenRect {
    pub x: u64,
    pub y: u64,
    pub width: u64,
    pub height: u64,
}

/// A rectangle in physical pixels.
#[derive(Debug, Clone, Copy, PartialEq, Eq, Structural)]
pub struct PhysicalRect {
    pub x: u64,
    pub y: u64,
    pub width: u64,
    pub height: u64,
}

impl ScreenRect {
    /// Lies wholly on the screen.
    pub open spec fn wf(&self, screen: &Screen) -> bool {
        self.x + self.width <= screen.width && self.y + self.height <= screen.height
    }

    pub open spec fn as_tuple(&self) -> (int, int, int, int) {
        (self.x as int, self.y as int, self.width as int, self.height as int)
    }

    /// A rectangle with its top-left corner at `origin`, each side cut at
    /// the screen edge.
    pub fn new(origin: ScreenCoordinates, width: u64, height: u64, screen: &Screen) -> (r:
        ScreenRect)
        requires
            origin.wf(screen),
        ensures
            r.x == origin.x,
            r.y == origin.y,
            r.width == min_of(width as int, screen.width - origin.x),
            r.height == min_of(height as int, screen.height - origin.y),
            r.wf(screen),
    {
        origin.generate_rect(width, height, PointAsRectAnchor::TopLeft, screen)
    }

    /// Whether the rectangle lies wholly on the screen.
    pub fn fits(&self, screen: &Screen) -> (r: bool)
        ensures
            r == self.wf(screen),
    {
        (self.x as u128) + (self.width as u128) <= screen.width as u128 && (self.y as u128) + (
        self.height as u128) <= screen.height as u128
    }

    /// The whole screen.
    pub fn full_screen(screen: &Screen) -> (r: ScreenRect)
        ensures
            r == (ScreenRect { x: 0, y: 0, width: screen.width as u64, height: screen.height as u64 }),
            r.wf(screen),
    {
        ScreenRect { x: 0, y: 0, width: screen.width as u64, height: screen.height as u64 }
    }

    /// A rectangle given in physical pixels, in scaled units: its origin
    /// must lie on the screen, and its sides are cut at the screen edges.
    pub fn from_physical(rect: &PhysicalRect, screen: &Screen) -> (r: Result<
        ScreenRect,
        ScreenCoordinateError,
    >)
        requires
            screen.wf(),
        ensures
            ({
                match point_at(
                    scaled_of(rect.x as int, screen.scale_percent as int),
                    scaled_of(rect.y as int, screen.scale_percent as int),
                    *screen,
                ) {
                    Err(e) => r == Err::<ScreenRect, ScreenCoordinateError>(e),
                    Ok(o) => r == Ok::<ScreenRect, ScreenCoordinateError>(
                        ScreenRect {
                            x: o.x,
                            y: o.y,
                            width: min_of(
                                scaled_of(rect.width as int, screen.scale_percent as int),
                                screen.width - o.x,
                            ) as u64,
                            height: min_of(
                                scaled_of(rect.height as int, screen.scale_percent as int),
                                screen.height - o.y,
                            ) as u64,
                        },
                    ),
                }
            }),
            r matches Ok(z) ==> z.wf(screen),
    {
        let origin = match ScreenCoordinates::at(
            scale_down(rect.x, screen),
            scale_down(rect.y, screen),
            screen,
        ) {
            Ok(o) => o,
            Err(e) => {
                return Err(e);
            },
        };
        let w = scale_down(rect.width, screen);
        let h = scale_down(rect.height, screen);
        let w = if w > screen.width as u128 {
            screen.width as u64
        } else {
            w as u64
        };
        let h = if h > screen.height as u128 {
            screen.height as u64
        } else {
            h as u64
        };
        Ok(ScreenRect::new(origin, w, h, screen))
    }

    /// The same rectangle in physical pixels: each value scaled up and
    /// rounded up.
    pub fn to_physical(&self, screen: &Screen) -> (r: PhysicalRect)
        requires
            self.wf(screen),
        ensures
            r == physical_rect(*self, screen.scale_percent as int),
    {
        PhysicalRect {
            x: to_physical(self.x, screen),
            y: to_physical(self.y, screen),
            width: to_physical(self.width, screen),
            height: to_physical(self.height, screen),
        }
    }
}

/// The physical extent of a screen value stays below 2^58.
pub proof fn lemma_physical_bound(v: int, s: int)
    requires
        0 <= v <= u32::MAX,
        0 <= s <= u32::MAX,
    ensures
        0 <= physical_of(v, s) < 0x400_0000_0000_0000,
{
    assert(0 <= v * s <= 0xffff_ffff * 0xffff_ffff) by (nonlinear_arith)
        requires
            0 <= v <= 0xffff_ffff,
            0 <= s <= 0xffff_ffff,
    ;
    lemma_div_bounds(v * s + 99, 100);
}

/// Floor division brackets its dividend.
proof fn lemma_div_bounds(a: int, s: int)
    requires
        s > 0,
    ensures
        s * (a / s) <= a < s * (a / s) + s,
{
    assert(a == s * (a / s) + a % s && 0 <= a % s < s) by (nonlinear_arith)
        requires
            s > 0,
    ;
}

/// `a / s == v` whenever `a` lies in `[s * v, s * v + s)`.
proof fn lemma_div_pinned(a: int, s: int, v: int)
    requires
        s > 0,
        s * v <= a < s * v + s,
    ensures
        a / s == v,
{
    let q = a / s;
    lemma_div_bounds(a, s);
    if q > v {
        assert(s * q >= s * v + s) by (nonlinear_arith)
            requires
                q >= v + 1,
                s > 0,
        ;
    } else if q < v {
        assert(s * q + s <= s * v) by (nonlinear_arith)
            requires
                q <= v - 1,
                s > 0,
        ;
    }
}

/// A non-negative scaled value, taken to physical pixels and back, is
/// unchanged when the scale factor is at least 1.0.
pub proof fn lemma_scale_round_trip(v: int, s: int)
    requires
        v >= 0,
        s >= 100,
    ensures
        scaled_of(physical_of(v, s), s) == v,
{
    let p = physical_of(v, s);
    assert(v * s >= 0 && v * s == s * v) by (nonlinear_arith)
        requires
            v >= 0,
            s >= 0,
    ;
    lemma_div_bounds(v * s + 99, 100);
    assert(100 * p <= v * s + 99 < 100 * p + 100);
    if v == 0 {
        assert(v * s == 0) by (nonlinear_arith)
            requires
                v == 0,
        ;
        lemma_div_pinned(99, 100, 0);
        assert(p == 0);
    } else {
        assert(v * s >= 100) by (nonlinear_arith)
            requires
                v >= 1,
                s >= 100,
        ;
        assert(p > 0);
        assert(p * 100 == 100 * p);
        lemma_div_pinned(p * 100, s, v);
    }
}

/// Every on-screen point, with both values short of the screen size, comes
/// back unchanged from physical pixels, and making a point from those
/// physical values succeeds, whenever the scale factor is at least 1.0.
pub proof fn lemma_point_round_trip(x: int, y: int, screen: Screen)
    requires
        screen.scale_percent >= 100,
        0 <= x < screen.width,
        0 <= y < screen.height,
    ensures
        scaled_of(physical_of(x, screen.scale_percent as int), screen.scale_percent as int) == x,
        scaled_of(physical_of(y, screen.scale_percent as int), screen.scale_percent as int) == y,
        point_at(
            scaled_of(physical_of(x, screen.scale_percent as int), screen.scale_percent as int),
            scaled_of(physical_of(y, screen.scale_percent as int), screen.scale_percent as int),
            screen,
        ) == Ok::<ScreenCoordinates, ScreenCoordinateError>(
            ScreenCoordinates { x: x as u64, y: y as u64 },
        ),
{
    lemma_scale_round_trip(x, screen.scale_percent as int);
    lemma_scale_round_trip(y, screen.scale_percent as int);
}

/// A position beyond the screen's width or height never makes a point: it
/// gives the error.
pub proof fn lemma_point_beyond_screen_rejected(x: int, y: int, screen: Screen)
    requires
        x > screen.width || y > screen.height,
    ensures
        point_at(x, y, screen) is Err,
{
}

/// Whatever size is requested, however far beyond the screen, and whichever
/// anchor is used, a rectangle made from an on-screen point lies wholly on
/// the screen.
pub proof fn lemma_anchored_rect_on_screen(
    p: ScreenCoordinates,
    w: int,
    h: int,
    anchor: PointAsRectAnchor,
    screen: Screen,
)
    requires
        p.wf(&screen),
        w >= 0,
        h >= 0,
    ensures
        ({
            let (x, y, rw, rh) = anchored_rect(p.x as int, p.y as int, w, h, anchor, screen);
            0 <= x && 0 <= y && 0 <= rw && 0 <= rh && x + rw <= screen.width && y + rh
                <= screen.height
        }),
{
}

} // verus!
