use ui_pilot::errors::ScreenCoordinateError;
use ui_pilot::geometry::{
    to_physical, Coordinate, PhysicalRect, PointAsRectAnchor, Screen, ScreenCoordinates,
    ScreenRect,
};

fn screen(scale_percent: u32) -> Screen {
    Screen::new(1920, 1080, scale_percent).unwrap()
}

fn point(x: u32, y: u32, s: &Screen) -> ScreenCoordinates {
    ScreenCoordinates::new(Coordinate::scaled(x), Coordinate::scaled(y), s).unwrap()
}

#[test]
fn screen_with_zero_scale_is_refused() {
    assert!(Screen::new(1920, 1080, 0).is_none());
    assert_eq!(Screen::new(1920, 1080, 150).unwrap().scale_percent, 150);
}

#[test]
fn coordinate_divides_by_scale_and_clamps_negatives() {
    let s = screen(200);
    assert_eq!(Coordinate::new(1890, &s).val, 945);
    assert_eq!(Coordinate::new(-5, &s).val, 0);
    assert_eq!(Coordinate::new(0, &s).val, 0);
    assert_eq!(Coordinate::new(25, &screen(125)).val, 20);
}

#[test]
fn point_round_trips_through_physical_pixels() {
    for scale in [100u32, 125, 150, 200] {
        let s = screen(scale);
        for (x, y) in [(0u32, 0u32), (1, 1), (7, 3), (1919, 1079), (960, 540)] {
            let px = to_physical(x as u64, &s) as i32;
            let py = to_physical(y as u64, &s) as i32;
            let p = ScreenCoordinates::new(Coordinate::new(px, &s), Coordinate::new(py, &s), &s)
                .unwrap();
            assert_eq!((p.x, p.y), (x as u64, y as u64), "scale {}", scale);
        }
    }
}

#[test]
fn point_beyond_screen_is_rejected() {
    let s = screen(100);
    let e = ScreenCoordinates::new(Coordinate::scaled(1921), Coordinate::scaled(10), &s);
    assert_eq!(e, Err(ScreenCoordinateError { x: 1921, y: 10, width: 1920, height: 1080 }));
    assert!(ScreenCoordinates::new(Coordinate::scaled(10), Coordinate::scaled(5000), &s).is_err());
    let edge = ScreenCoordinates::new(Coordinate::scaled(1920), Coordinate::scaled(1080), &s);
    assert_eq!(edge, Ok(ScreenCoordinates { x: 1920, y: 1080 }));
}

#[test]
fn shift_moves_and_rejects_leaving_the_screen() {
    let s = screen(100);
    let p = point(100, 100, &s);
    assert_eq!(p.shift(10, -20, &s), Ok(ScreenCoordinates { x: 110, y: 80 }));
    assert_eq!(
        p.shift(-101, 0, &s),
        Err(ScreenCoordinateError { x: -1, y: 100, width: 1920, height: 1080 })
    );
    assert!(p.shift(1821, 0, &s).is_err());
    assert_eq!(p.shift(1820, 980, &s), Ok(ScreenCoordinates { x: 1920, y: 1080 }));
}

#[test]
fn rect_anchors_truncate_at_screen_edges() {
    let s = screen(100);
    let p = point(100, 50, &s);
    let r = |a| {
        let r = p.generate_rect(300, 300, a, &s);
        (r.x, r.y, r.width, r.height)
    };
    assert_eq!(r(PointAsRectAnchor::TopLeft), (100, 50, 300, 300));
    assert_eq!(r(PointAsRectAnchor::TopRight), (0, 50, 100, 300));
    assert_eq!(r(PointAsRectAnchor::BottomLeft), (100, 0, 300, 50));
    assert_eq!(r(PointAsRectAnchor::BottomRight), (0, 0, 100, 50));
    assert_eq!(r(PointAsRectAnchor::Center), (50, 25, 100, 50));
    let q = point(960, 540, &s);
    let c = q.generate_rect(150, 150, PointAsRectAnchor::Center, &s);
    assert_eq!((c.x, c.y, c.width, c.height), (885, 465, 150, 150));
}

#[test]
fn oversized_rect_stays_on_screen_for_every_anchor() {
    let s = screen(100);
    let anchors = [
        PointAsRectAnchor::TopLeft,
        PointAsRectAnchor::TopRight,
        PointAsRectAnchor::BottomLeft,
        PointAsRectAnchor::BottomRight,
        PointAsRectAnchor::Center,
    ];
    for (x, y) in [(0u32, 0u32), (1920, 1080), (1000, 3), (17, 1079)] {
        let p = point(x, y, &s);
        for a in anchors {
            let r = p.generate_rect(u64::MAX, 5000, a, &s);
            assert!(r.x + r.width <= 1920 && r.y + r.height <= 1080, "{:?} {:?}", a, r);
        }
    }
    let tl = point(0, 0, &s).generate_rect(4000, 4000, PointAsRectAnchor::TopLeft, &s);
    assert_eq!(tl, ScreenRect { x: 0, y: 0, width: 1920, height: 1080 });
}

#[test]
fn rect_new_and_full_screen() {
    let s = screen(100);
    let r = ScreenRect::new(point(1900, 1000, &s), 50, 50, &s);
    assert_eq!(r, ScreenRect { x: 1900, y: 1000, width: 20, height: 50 });
    assert_eq!(ScreenRect::full_screen(&s), ScreenRect { x: 0, y: 0, width: 1920, height: 1080 });
    assert!(r.fits(&s));
    assert!(!ScreenRect { x: 1900, y: 0, width: 21, height: 1 }.fits(&s));
}

#[test]
fn rect_converts_between_scaled_and_physical() {
    let s = screen(150);
    let r = ScreenRect { x: 10, y: 21, width: 100, height: 3 };
    assert_eq!(r.to_physical(&s), PhysicalRect { x: 15, y: 32, width: 150, height: 5 });
    let back = ScreenRect::from_physical(&PhysicalRect { x: 15, y: 32, width: 150, height: 5 }, &s);
    assert_eq!(back, Ok(ScreenRect { x: 10, y: 21, width: 100, height: 3 }));
    let off = ScreenRect::from_physical(&PhysicalRect { x: 3000, y: 0, width: 1, height: 1 }, &s);
    assert!(off.is_err());
    let cut = ScreenRect::from_physical(&PhysicalRect { x: 0, y: 0, width: 9999, height: 9999 }, &s);
    assert_eq!(cut, Ok(ScreenRect { x: 0, y: 0, width: 1920, height: 1080 }));
}
