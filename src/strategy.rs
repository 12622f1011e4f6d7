//! Location strategies: how the report of an outside pixel search becomes a
//! point on the screen.
//!
//! The search itself (normalised cross-correlation, or a bitmap needle
//! search) runs outside the library on the captured frame, cut to the search
//! region, with the template rescaled to physical pixels. It reports the
//! top-left of its best match in physical pixels, relative to the region, and
//! a similarity score in thousandths. The library plans that search and turns
//! its report into the centre of the match in scaled units.
use crate::errors::{OutOfBoundsError, ScreenCoordinateError};
use crate::frame::{zone_error, zone_fits, zone_within, Frame};
use crate::geometry::{
    lemma_physical_bound, lemma_scale_round_trip, physical_of, physical_rect, point_at, scale_down, scaled_of,
    to_physical, PhysicalRect, Screen, ScreenCoordinates, ScreenRect,
};
use vstd::prelude::*;

verus! {

/// The similarity, in thousandths, below which a bitmap needle search
/// reports no match.
pub const BITMAP_NEEDLE_FLOOR_PERMILLE: u32 = 800;

/// How an image template is found on the screen.
#[derive(Debug, Clone, Copy, PartialEq, Eq, Structural)]
pub enum LocationStrategyType {
    /// Normalised cross-correlation; the best match is taken.
    TemplateMatching,
    /// Bitmap needle search with a similarity floor.
    BitmapNeedle,
    /// Parsing element edges; it has no algorithm yet and always fails with
    /// `LocateError::NotImplemented`.
    EdgeParsing,
}

impl LocationStrategyType {
    /// The lowest score, in thousandths, that counts as a match.
    pub open spec fn floor_permille(self) -> int {
        match self {
            LocationStrategyType::BitmapNeedle => BITMAP_NEEDLE_FLOOR_PERMILLE as int,
            _ => 0,
        }
    }

    pub fn score_floor(&self) -> (r: u32)
        ensures
            r == self.floor_permille(),
    {
        match self {
            LocationStrategyType::BitmapNeedle => BITMAP_NEEDLE_FLOOR_PERMILLE,
            _ => 0,
        }
    }
}

/// Why a target could not be located.
#[derive(Debug, Clone, Copy, PartialEq, Eq, Structural)]
pub enum LocateError {
    /// The search found nothing good enough inside the region.
    NoMatch,
    /// The template is wider or taller than the search region.
    TemplateTooLarge,
    /// The strategy has no algorithm.
    NotImplemented,
    /// The search region does not fit the captured frame.
    OutOfBounds(OutOfBoundsError),
    /// The located point lies off the screen.
    OffScreen(ScreenCoordinateError),
}

/// What the outside search reports: the top-left of its best match, in
/// physical pixels relative to the search region, and its similarity in
/// thousandths.
#[derive(Debug, Clone, Copy, PartialEq, Eq, Structural)]
pub struct TemplateMatch {
    pub x: u64,
    pub y: u64,
    pub score_permille: u32,
}

/// What to hand the outside search: the region of the captured frame to
/// search, and the size, in physical pixels, to rescale the template to.
#[derive(Debug, Clone, Copy, PartialEq, Eq, Structural)]
pub struct SearchPlan {
    pub region: PhysicalRect,
    pub template_width: u64,
    pub template_height: u64,
}

/// The template is wider or taller than the region, in scaled units or
/// once both are rescaled to physical pixels.
pub open spec fn template_too_large(region: ScreenRect, tw: int, th: int, s: int) -> bool {
    tw > region.width || th > region.height || physical_of(tw, s) > physical_of(
        region.width as int,
        s,
    ) || physical_of(th, s) > physical_of(region.height as int, s)
}

/// The centre, in scaled units, of a match of a `tw` by `th` template whose
/// top-left was found at `m` inside the physical region `pr`.
pub open spec fn match_centre(pr: PhysicalRect, m: TemplateMatch, tw: int, th: int, s: int) -> (
    int,
    int,
) {
    (scaled_of(pr.x + m.x, s) + tw / 2, scaled_of(pr.y + m.y, s) + th / 2)
}

/// The search plan for a `tw` by `th` template in `region` of a captured
/// `frame`: the region and the template size in physical pixels, once the
/// region is known to fit the frame and the template to fit the region.
pub open spec fn planned(
    kind: LocationStrategyType,
    region: ScreenRect,
    tw: int,
    th: int,
    frame: &Frame,
    screen: Screen,
) -> Result<SearchPlan, LocateError> {
    let s = screen.scale_percent as int;
    let pr = physical_rect(region, s);
    if kind is EdgeParsing {
        Err(LocateError::NotImplemented)
    } else if !zone_within(pr, frame) {
        Err(LocateError::OutOfBounds(zone_error(pr, frame)))
    } else if template_too_large(region, tw, th, s) {
        Err(LocateError::TemplateTooLarge)
    } else {
        Ok(
            SearchPlan {
                region: pr,
                template_width: physical_of(tw, s) as u64,
                template_height: physical_of(th, s) as u64,
            },
        )
    }
}

/// The outcome of locating a `tw` by `th` template in `region` from what the
/// search reported.
pub open spec fn located(
    kind: LocationStrategyType,
    region: ScreenRect,
    tw: int,
    th: int,
    found: Option<TemplateMatch>,
    screen: Screen,
) -> Result<ScreenCoordinates, LocateError> {
    let s = screen.scale_percent as int;
    let pr = physical_rect(region, s);
    if kind is EdgeParsing {
        Err(LocateError::NotImplemented)
    } else if template_too_large(region, tw, th, s) {
        Err(LocateError::TemplateTooLarge)
    } else {
        match found {
            None => Err(LocateError::NoMatch),
            Some(m) => {
                if m.score_permille < kind.floor_permille() || m.x + physical_of(tw, s) > pr.width
                    || m.y + physical_of(th, s) > pr.height {
                    Err(LocateError::NoMatch)
                } else {
                    match point_at(match_centre(pr, m, tw, th, s).0, match_centre(pr, m, tw, th, s).1, screen) {
                        Ok(p) => Ok(p),
                        Err(e) => Err(LocateError::OffScreen(e)),
                    }
                }
            },
        }
    }
}

proof fn lemma_physical_rect_bound(region: ScreenRect, screen: Screen)
    requires
        region.wf(&screen),
    ensures
        0 <= physical_of(region.x as int, screen.scale_percent as int) < 0x400_0000_0000_0000,
        0 <= physical_of(region.y as int, screen.scale_percent as int) < 0x400_0000_0000_0000,
        0 <= physical_of(region.width as int, screen.scale_percent as int) < 0x400_0000_0000_0000,
        0 <= physical_of(region.height as int, screen.scale_percent as int) < 0x400_0000_0000_0000,
{
    lemma_physical_bound(region.x as int, screen.scale_percent as int);
    lemma_physical_bound(region.y as int, screen.scale_percent as int);
    lemma_physical_bound(region.width as int, screen.scale_percent as int);
    lemma_physical_bound(region.height as int, screen.scale_percent as int);
}

/// The centre of a match does not depend on the device scale factor: a
/// match whose top-left lies at the physical image of the scaled point
/// `(x, y)` is centred at `(x + tw / 2, y + th / 2)` for every scale factor
/// of at least 1.0.
pub proof fn lemma_match_centre_scale_free(
    pr: PhysicalRect,
    m: TemplateMatch,
    x: int,
    y: int,
    tw: int,
    th: int,
    s: int,
)
    requires
        s >= 100,
        x >= 0,
        y >= 0,
        pr.x + m.x == physical_of(x, s),
        pr.y + m.y == physical_of(y, s),
    ensures
        match_centre(pr, m, tw, th, s) == (x + tw / 2, y + th / 2),
{
    lemma_scale_round_trip(x, s);
    lemma_scale_round_trip(y, s);
}

/// Plans the search of `template` in `region` of a captured `frame`.
pub fn plan_search(
    kind: LocationStrategyType,
    region: &ScreenRect,
    template: &Frame,
    frame: &Frame,
    screen: &Screen,
) -> (r: Result<SearchPlan, LocateError>)
    requires
        region.wf(screen),
    ensures
        r == planned(kind, *region, template.width as int, template.height as int, frame, *screen),
{
    if kind == LocationStrategyType::EdgeParsing {
        return Err(LocateError::NotImplemented);
    }
    let pr = region.to_physical(screen);
    proof {
        lemma_physical_rect_bound(*region, *screen);
    }
    if !zone_fits(&pr, frame) {
        return Err(
            LocateError::OutOfBounds(
                OutOfBoundsError {
                    x: pr.x,
                    y: pr.y,
                    width: pr.width,
                    height: pr.height,
                    frame_width: frame.width,
                    frame_height: frame.height,
                },
            ),
        );
    }
    let tw = to_physical(template.width as u64, screen);
    let th = to_physical(template.height as u64, screen);
    if template.width as u64 > region.width || template.height as u64 > region.height || tw
        > pr.width || th > pr.height {
        return Err(LocateError::TemplateTooLarge);
    }
    Ok(SearchPlan { region: pr, template_width: tw, template_height: th })
}

/// Turns what the search reported into the centre of the match: the match's
/// top-left, taken from physical pixels back to scaled units, plus half the
/// template's scaled size. A bitmap needle match below its similarity floor,
/// or a report that does not fit the region, is no match.
pub fn locate_match(
    kind: LocationStrategyType,
    region: &ScreenRect,
    template_width: u32,
    template_height: u32,
    found: Option<TemplateMatch>,
    screen: &Screen,
) -> (r: Result<ScreenCoordinates, LocateError>)
    requires
        screen.wf(),
        region.wf(screen),
    ensures
        r == located(kind, *region, template_width as int, template_height as int, found, *screen),
        r matches Ok(p) ==> p.wf(screen),
{
    if kind == LocationStrategyType::EdgeParsing {
        return Err(LocateError::NotImplemented);
    }
    let pr = region.to_physical(screen);
    proof {
        lemma_physical_rect_bound(*region, *screen);
    }
    let tw = to_physical(template_width as u64, screen);
    let th = to_physical(template_height as u64, screen);
    if template_width as u64 > region.width || template_height as u64 > region.height || tw
        > pr.width || th > pr.height {
        return Err(LocateError::TemplateTooLarge);
    }
    match found {
        None => Err(LocateError::NoMatch),
        Some(m) => {
            if m.score_permille < kind.score_floor() || (m.x as u128) + (tw as u128)
                > pr.width as u128 || (m.y as u128) + (th as u128) > pr.height as u128 {
                return Err(LocateError::NoMatch);
            }
            let cx = scale_down(pr.x + m.x, screen) + (template_width / 2) as u128;
            let cy = scale_down(pr.y + m.y, screen) + (template_height / 2) as u128;
            match ScreenCoordinates::at(cx, cy, screen) {
                Ok(p) => Ok(p),
                Err(e) => Err(LocateError::OffScreen(e)),
            }
        },
    }
}

} // verus!
