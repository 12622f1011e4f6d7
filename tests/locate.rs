use std::io::Cursor;
use ui_pilot::errors::OutOfBoundsError;
use ui_pilot::frame::Frame;
use ui_pilot::geometry::{Coordinate, PhysicalRect, Screen, ScreenCoordinates, ScreenRect};
use ui_pilot::location::{AbsoluteLocation, ImageTemplate, TargetFactory};
use ui_pilot::strategy::{
    locate_match, LocateError, LocationStrategyType, SearchPlan, TemplateMatch,
};

/// A distinctive `w` by `h` template, as PNG bytes.
fn template_png(w: u32, h: u32) -> Vec<u8> {
    let img = image::RgbaImage::from_fn(w, h, |x, y| {
        image::Rgba([(x * 11 + 1) as u8, (y * 13 + 1) as u8, ((x + y) * 3 + 1) as u8, 255])
    });
    let mut out = Cursor::new(Vec::new());
    img.write_to(&mut out, image::ImageFormat::Png).unwrap();
    out.into_inner()
}

fn template(kind: LocationStrategyType, s: &Screen) -> ImageTemplate {
    ImageTemplate::new("needle".to_string(), &template_png(20, 20), None, kind, s).unwrap()
}

/// A physical frame of the screen, blank but for the template scaled by
/// `factor` and drawn with its top-left at `(at_x, at_y)`.
fn synthetic_frame(s: &Screen, t: &Frame, factor: u32, at_x: u32, at_y: u32) -> Frame {
    let (w, h) = (s.width * factor, s.height * factor);
    let mut px = vec![0u8; (4 * w * h) as usize];
    for y in 0..t.height * factor {
        for x in 0..t.width * factor {
            let src = (4 * ((y / factor) * t.width + x / factor)) as usize;
            let dst = (4 * ((at_y + y) * w + at_x + x)) as usize;
            px[dst..dst + 4].copy_from_slice(&t.pixels[src..src + 4]);
        }
    }
    Frame::new(w, h, px).unwrap()
}

/// The template scaled by `factor`, nearest neighbour.
fn scaled_template(t: &Frame, factor: u32) -> Frame {
    synthetic_frame(
        &Screen::new(t.width, t.height, 100).unwrap(),
        t,
        factor,
        0,
        0,
    )
}

/// An exact search of `needle` inside `plan.region` of `frame`, standing in
/// for the outside pixel search.
fn exact_search(frame: &Frame, needle: &Frame, plan: &SearchPlan) -> Option<TemplateMatch> {
    assert_eq!((needle.width as u64, needle.height as u64), (plan.template_width, plan.template_height));
    let r = plan.region;
    for oy in 0..=(r.height - plan.template_height) {
        for ox in 0..=(r.width - plan.template_width) {
            let hit = (0..needle.height as u64).all(|y| {
                (0..needle.width as u64).all(|x| {
                    let f = (4 * ((r.y + oy + y) * frame.width as u64 + r.x + ox + x)) as usize;
                    let n = (4 * (y * needle.width as u64 + x)) as usize;
                    frame.pixels[f..f + 4] == needle.pixels[n..n + 4]
                })
            });
            if hit {
                return Some(TemplateMatch { x: ox, y: oy, score_permille: 1000 });
            }
        }
    }
    None
}

#[test]
fn template_match_resolves_to_centre_at_any_scale() {
    for (scale, factor) in [(100u32, 1u32), (200, 2)] {
        let s = Screen::new(200, 150, scale).unwrap();
        let t = template(LocationStrategyType::TemplateMatching, &s);
        let frame = synthetic_frame(&s, &t.image, factor, 50 * factor, 50 * factor);
        let plan = t.search_plan(&frame, &s).unwrap();
        let needle = scaled_template(&t.image, factor);
        let found = exact_search(&frame, &needle, &plan);
        assert_eq!(found.map(|m| (m.x, m.y)), Some((50 * factor as u64, 50 * factor as u64)));
        assert_eq!(t.get_location(found, &s), Ok(ScreenCoordinates { x: 60, y: 60 }), "scale {}", scale);
    }
}

#[test]
fn match_in_offset_region_is_taken_relative_to_it() {
    let s = Screen::new(200, 150, 200).unwrap();
    let region = ScreenRect { x: 40, y: 30, width: 100, height: 100 };
    let found = Some(TemplateMatch { x: 20, y: 0, score_permille: 900 });
    let p = locate_match(LocationStrategyType::TemplateMatching, &region, 20, 10, found, &s);
    assert_eq!(p, Ok(ScreenCoordinates { x: 60, y: 35 }));
}

#[test]
fn plan_rescales_template_and_checks_bounds() {
    let s = Screen::new(200, 150, 200).unwrap();
    let t = template(LocationStrategyType::TemplateMatching, &s);
    let frame = Frame::new(400, 300, vec![0; 400 * 300 * 4]).unwrap();
    assert_eq!(
        t.search_plan(&frame, &s),
        Ok(SearchPlan {
            region: PhysicalRect { x: 0, y: 0, width: 400, height: 300 },
            template_width: 40,
            template_height: 40,
        })
    );
    let small = Frame::new(300, 300, vec![0; 300 * 300 * 4]).unwrap();
    assert_eq!(
        t.search_plan(&small, &s),
        Err(LocateError::OutOfBounds(OutOfBoundsError {
            x: 0,
            y: 0,
            width: 400,
            height: 300,
            frame_width: 300,
            frame_height: 300,
        }))
    );
}

#[test]
fn template_larger_than_region_is_refused() {
    let s = Screen::new(200, 150, 100).unwrap();
    let c = Coordinate::scaled;
    let t = ImageTemplate::new(
        "wide".to_string(),
        &template_png(20, 20),
        Some((c(0), c(0), c(19), c(50))),
        LocationStrategyType::TemplateMatching,
        &s,
    )
    .unwrap();
    let frame = Frame::new(200, 150, vec![0; 200 * 150 * 4]).unwrap();
    assert_eq!(t.search_plan(&frame, &s), Err(LocateError::TemplateTooLarge));
    let found = Some(TemplateMatch { x: 0, y: 0, score_permille: 1000 });
    assert_eq!(t.get_location(found, &s), Err(LocateError::TemplateTooLarge));
}

#[test]
fn edge_parsing_is_not_implemented() {
    let s = Screen::new(200, 150, 100).unwrap();
    let t = template(LocationStrategyType::EdgeParsing, &s);
    let frame = Frame::new(200, 150, vec![0; 200 * 150 * 4]).unwrap();
    assert_eq!(t.search_plan(&frame, &s), Err(LocateError::NotImplemented));
    let found = Some(TemplateMatch { x: 0, y: 0, score_permille: 1000 });
    assert_eq!(t.get_location(found, &s), Err(LocateError::NotImplemented));
}

#[test]
fn weak_or_missing_match_is_no_match() {
    let s = Screen::new(200, 150, 100).unwrap();
    let needle = template(LocationStrategyType::BitmapNeedle, &s);
    let weak = Some(TemplateMatch { x: 5, y: 5, score_permille: 799 });
    assert_eq!(needle.get_location(weak, &s), Err(LocateError::NoMatch));
    let strong = Some(TemplateMatch { x: 5, y: 5, score_permille: 800 });
    assert_eq!(needle.get_location(strong, &s), Ok(ScreenCoordinates { x: 15, y: 15 }));
    assert_eq!(needle.get_location(None, &s), Err(LocateError::NoMatch));
    let matching = template(LocationStrategyType::TemplateMatching, &s);
    let low = Some(TemplateMatch { x: 5, y: 5, score_permille: 10 });
    assert_eq!(matching.get_location(low, &s), Ok(ScreenCoordinates { x: 15, y: 15 }));
    let outside = Some(TemplateMatch { x: 181, y: 0, score_permille: 1000 });
    assert_eq!(matching.get_location(outside, &s), Err(LocateError::NoMatch));
}

#[test]
fn absolute_target_is_checked_against_the_screen() {
    let s = Screen::new(200, 150, 100).unwrap();
    let c = Coordinate::scaled;
    let on = TargetFactory::AbsoluteTarget(AbsoluteLocation { x: c(10), y: c(20) });
    assert_eq!(on.get_location(None, &s), Ok(ScreenCoordinates { x: 10, y: 20 }));
    let off = TargetFactory::AbsoluteTarget(AbsoluteLocation { x: c(10), y: c(151) });
    assert!(matches!(off.get_location(None, &s), Err(LocateError::OffScreen(_))));
}

#[test]
fn default_check_zone_follows_the_target_kind() {
    let s = Screen::new(1920, 1080, 100).unwrap();
    let c = Coordinate::scaled;
    let abs = TargetFactory::AbsoluteTarget(AbsoluteLocation { x: c(500), y: c(500) });
    let r = abs.resolve(None, None, 150, &s).unwrap();
    assert_eq!(r.point, ScreenCoordinates { x: 500, y: 500 });
    assert_eq!(r.check_zone, ScreenRect { x: 425, y: 425, width: 150, height: 150 });
    let tpl = TargetFactory::TemplateTarget(template(LocationStrategyType::TemplateMatching, &s));
    let found = Some(TemplateMatch { x: 50, y: 50, score_permille: 1000 });
    let r = tpl.resolve(found, None, 150, &s).unwrap();
    assert_eq!(r.point, ScreenCoordinates { x: 60, y: 60 });
    assert_eq!(r.check_zone, ScreenRect { x: 50, y: 50, width: 20, height: 20 });
    let given = ScreenRect { x: 1, y: 2, width: 3, height: 4 };
    assert_eq!(tpl.resolve(found, Some(given), 150, &s).unwrap().check_zone, given);
    assert_eq!(tpl.resolve(None, Some(given), 150, &s), Err(LocateError::NoMatch));
}

#[test]
fn template_larger_than_region_is_refused_below_unit_scale() {
    let s = Screen::new(200, 150, 50).unwrap();
    let region = ScreenRect { x: 0, y: 0, width: 1, height: 1 };
    let found = Some(TemplateMatch { x: 0, y: 0, score_permille: 1000 });
    assert_eq!(
        locate_match(LocationStrategyType::TemplateMatching, &region, 2, 1, found, &s),
        Err(LocateError::TemplateTooLarge)
    );
    assert_eq!(
        locate_match(LocationStrategyType::TemplateMatching, &region, 1, 1, found, &s),
        Ok(ScreenCoordinates { x: 0, y: 0 })
    );
}
