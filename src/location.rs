//! Targets and their resolution into a point on the screen and a check-zone.
use crate::errors::ScreenCoordinateError;
use crate::frame::{decoded_frame, Frame, FrameError};
use crate::geometry::{
    anchored_rect, min_of, point_at, rect_from, Coordinate, PointAsRectAnchor, Screen, ScreenCoordinates,
    ScreenRect,
};
use crate::strategy::{
    located, locate_match, plan_search, planned, LocateError, LocationStrategyType, SearchPlan,
    TemplateMatch,
};
use vstd::prelude::*;

verus! {

/// The side, in scaled units, of the square watched around an absolute
/// target when no check-zone is given.
pub const DEFAULT_CHECK_ZONE_SIZE: u64 = 150;

/// Why an image template could not be made.
#[derive(Debug, Clone, Copy, PartialEq, Eq, Structural)]
pub enum TemplateError {
    /// The image bytes could not be decoded.
    Image(FrameError),
    /// The search region's origin lies off the screen.
    SearchRegion(ScreenCoordinateError),
}

/// The search region that `(x, y, width, height)` asks for: its origin must
/// lie on the screen, and its sides are cut at the screen edges. Without one
/// the whole screen is searched.
pub open spec fn search_rect(
    region: Option<(Coordinate, Coordinate, Coordinate, Coordinate)>,
    screen: Screen,
) -> Result<ScreenRect, ScreenCoordinateError> {
    match region {
        None => Ok(
            ScreenRect { x: 0, y: 0, width: screen.width as u64, height: screen.height as u64 },
        ),
        Some((x, y, w, h)) => match point_at(x.val as int, y.val as int, screen) {
            Err(e) => Err(e),
            Ok(o) => Ok(
                ScreenRect {
                    x: o.x,
                    y: o.y,
                    width: min_of(w.val as int, screen.width - o.x) as u64,
                    height: min_of(h.val as int, screen.height - o.y) as u64,
                },
            ),
        },
    }
}

/// A small reference image of an interface element, the region of the
/// screen to search it in, and how to search. The image is in scaled units.
#[derive(Debug)]
pub struct ImageTemplate {
    pub name: String,
    pub image: Frame,
    pub search_region: ScreenRect,
    pub location_strategy: LocationStrategyType,
}

impl ImageTemplate {
    pub open spec fn wf(&self, screen: &Screen) -> bool {
        self.image.wf() && self.search_region.wf(screen)
    }

    /// Makes a template from the bytes of an image file, searching the given
    /// region or, without one, the whole screen.
    pub fn new(
        name: String,
        image_bytes: &[u8],
        search_region: Option<(Coordinate, Coordinate, Coordinate, Coordinate)>,
        strategy_type: LocationStrategyType,
        screen: &Screen,
    ) -> (r: Result<ImageTemplate, TemplateError>)
        ensures
            ({
                match search_rect(search_region, *screen) {
                    Err(e) => r == Err::<ImageTemplate, TemplateError>(
                        TemplateError::SearchRegion(e),
                    ),
                    Ok(rect) => match decoded_frame(image_bytes@) {
                        Err(fe) => r == Err::<ImageTemplate, TemplateError>(
                            TemplateError::Image(fe),
                        ),
                        Ok((w, h, px)) => r matches Ok(t) && t.name@ == name@ && t.image.width == w
                            && t.image.height == h && t.image.pixels@ == px && t.search_region
                            == rect && t.location_strategy == strategy_type,
                    },
                }
            }),
            r matches Ok(t) ==> t.wf(screen),
    {
        let region = match search_region {
            None => ScreenRect::full_screen(screen),
            Some((x, y, w, h)) => match ScreenCoordinates::new(x, y, screen) {
                Err(e) => {
                    return Err(TemplateError::SearchRegion(e));
                },
                Ok(origin) => ScreenRect::new(origin, w.val, h.val, screen),
            },
        };
        match Frame::from_image_bytes(image_bytes) {
            Err(e) => Err(TemplateError::Image(e)),
            Ok(image) => Ok(
                ImageTemplate {
                    name,
                    image,
                    search_region: region,
                    location_strategy: strategy_type,
                },
            ),
        }
    }

    /// What to hand the outside search for this template in a captured frame.
    pub fn search_plan(&self, frame: &Frame, screen: &Screen) -> (r: Result<
        SearchPlan,
        LocateError,
    >)
        requires
            self.wf(screen),
        ensures
            r == planned(
                self.location_strategy,
                self.search_region,
                self.image.width as int,
                self.image.height as int,
                frame,
                *screen,
            ),
    {
        plan_search(self.location_strategy, &self.search_region, &self.image, frame, screen)
    }

    /// The centre of the template on the screen, from what the search
    /// reported.
    pub fn get_location(&self, found: Option<TemplateMatch>, screen: &Screen) -> (r: Result<
        ScreenCoordinates,
        LocateError,
    >)
        requires
            screen.wf(),
            self.wf(screen),
        ensures
            r == located(
                self.location_strategy,
                self.search_region,
                self.image.width as int,
                self.image.height as int,
                found,
                *screen,
            ),
            r matches Ok(p) ==> p.wf(screen),
    {
        locate_match(
            self.location_strategy,
            &self.search_region,
            self.image.width,
            self.image.height,
            found,
            screen,
        )
    }
}

/// A fixed point, given in scaled units.
#[derive(Debug, Clone, Copy, PartialEq, Eq, Structural)]
pub struct AbsoluteLocation {
    pub x: Coordinate,
    pub y: Coordinate,
}

impl AbsoluteLocation {
    /// The point itself, checked against the screen.
    pub fn get_location(&self, screen: &Screen) -> (r: Result<
        ScreenCoordinates,
        ScreenCoordinateError,
    >)
        ensures
            r == point_at(self.x.val as int, self.y.val as int, *screen),
            r matches Ok(p) ==> p.wf(screen),
    {
        ScreenCoordinates::new(self.x, self.y, screen)
    }
}

/// What a verb acts on: an image template to find, or a fixed point.
#[derive(Debug)]
pub enum TargetFactory {
    TemplateTarget(ImageTemplate),
    AbsoluteTarget(AbsoluteLocation),
}

/// A resolved target: the point to act on and the rectangle to watch.
#[derive(Debug, Clone, Copy, PartialEq, Eq, Structural)]
pub struct ResolvedTarget {
    pub point: ScreenCoordinates,
    pub check_zone: ScreenRect,
}

/// Where a target lies, from what the search reported (a fixed point
/// ignores the report).
pub open spec fn target_location(
    t: &TargetFactory,
    found: Option<TemplateMatch>,
    screen: Screen,
) -> Result<ScreenCoordinates, LocateError> {
    match t {
        TargetFactory::TemplateTarget(tp) => located(
            tp.location_strategy,
            tp.search_region,
            tp.image.width as int,
            tp.image.height as int,
            found,
            screen,
        ),
        TargetFactory::AbsoluteTarget(a) => match point_at(a.x.val as int, a.y.val as int, screen) {
            Ok(p) => Ok(p),
            Err(e) => Err(LocateError::OffScreen(e)),
        },
    }
}

/// The template's own box around its centre `p`: the top-left lies half
/// the template's size before the point (never before the screen's origin),
/// and the sides are cut at the screen edges.
pub open spec fn template_box(p: ScreenCoordinates, w: int, h: int, screen: Screen) -> ScreenRect {
    let ox = if p.x >= w / 2 {
        p.x - w / 2
    } else {
        0
    };
    let oy = if p.y >= h / 2 {
        p.y - h / 2
    } else {
        0
    };
    ScreenRect {
        x: ox as u64,
        y: oy as u64,
        width: min_of(w, screen.width - ox) as u64,
        height: min_of(h, screen.height - oy) as u64,
    }
}

/// The rectangle watched around the resolved point `p` when none is given:
/// the template's own box for a template, and a `zone_size` square centred
/// on a fixed point.
pub open spec fn default_zone(
    t: &TargetFactory,
    p: ScreenCoordinates,
    zone_size: int,
    screen: Screen,
) -> ScreenRect {
    match t {
        TargetFactory::TemplateTarget(tp) => template_box(
            p,
            tp.image.width as int,
            tp.image.height as int,
            screen,
        ),
        TargetFactory::AbsoluteTarget(_) => rect_from(
            anchored_rect(
                p.x as int,
                p.y as int,
                zone_size,
                zone_size,
                PointAsRectAnchor::Center,
                screen,
            ),
        ),
    }
}

/// The resolved target: where the target lies, and the given check-zone
/// or, without one, the default zone around that point.
pub open spec fn resolution(
    t: &TargetFactory,
    found: Option<TemplateMatch>,
    check_zone: Option<ScreenRect>,
    zone_size: int,
    screen: Screen,
) -> Result<ResolvedTarget, LocateError> {
    match target_location(t, found, screen) {
        Err(e) => Err(e),
        Ok(p) => Ok(
            ResolvedTarget {
                point: p,
                check_zone: match check_zone {
                    Some(z) => z,
                    None => default_zone(t, p, zone_size, screen),
                },
            },
        ),
    }
}

impl TargetFactory {
    pub open spec fn wf(&self, screen: &Screen) -> bool {
        match self {
            TargetFactory::TemplateTarget(tp) => tp.wf(screen),
            TargetFactory::AbsoluteTarget(_) => true,
        }
    }

    /// Where the target lies.
    pub fn get_location(&self, found: Option<TemplateMatch>, screen: &Screen) -> (r: Result<
        ScreenCoordinates,
        LocateError,
    >)
        requires
            screen.wf(),
            self.wf(screen),
        ensures
            r == target_location(self, found, *screen),
            r matches Ok(p) ==> p.wf(screen),
    {
        match self {
            TargetFactory::TemplateTarget(tp) => tp.get_location(found, screen),
            TargetFactory::AbsoluteTarget(a) => match a.get_location(screen) {
                Ok(p) => Ok(p),
                Err(e) => Err(LocateError::OffScreen(e)),
            },
        }
    }

    /// The rectangle to watch when none is given: the template's own box
    /// for a template, and a `zone_size` square centred on a fixed point,
    /// cut at the screen edges.
    pub fn default_check_zone(
        &self,
        target: &ScreenCoordinates,
        zone_size: u64,
        screen: &Screen,
    ) -> (r: ScreenRect)
        requires
            target.wf(screen),
        ensures
            r == default_zone(self, *target, zone_size as int, *screen),
            r.wf(screen),
    {
        match self {
            TargetFactory::TemplateTarget(tp) => {
                let (w, h) = (tp.image.width as u64, tp.image.height as u64);
                let ox = if target.x >= w / 2 {
                    target.x - w / 2
                } else {
                    0
                };
                let oy = if target.y >= h / 2 {
                    target.y - h / 2
                } else {
                    0
                };
                ScreenRect::new(ScreenCoordinates { x: ox, y: oy }, w, h, screen)
            },
            TargetFactory::AbsoluteTarget(_) => target.generate_rect(
                zone_size,
                zone_size,
                PointAsRectAnchor::Center,
                screen,
            ),
        }
    }

    /// Resolves the target into the point to act on and the rectangle to
    /// watch: the given check-zone, or the default one.
    pub fn resolve(
        &self,
        found: Option<TemplateMatch>,
        check_zone: Option<ScreenRect>,
        zone_size: u64,
        screen: &Screen,
    ) -> (r: Result<ResolvedTarget, LocateError>)
        requires
            screen.wf(),
            self.wf(screen),
            check_zone matches Some(z) ==> z.wf(screen),
        ensures
            r == resolution(self, found, check_zone, zone_size as int, *screen),
            r matches Ok(t) ==> t.point.wf(screen) && t.check_zone.wf(screen),
    {
        let point = match self.get_location(found, screen) {
            Ok(p) => p,
            Err(e) => {
                return Err(e);
            },
        };
        let zone = match check_zone {
            Some(z) => z,
            None => self.default_check_zone(&point, zone_size, screen),
        };
        Ok(ResolvedTarget { point, check_zone: zone })
    }
}

} // verus!
