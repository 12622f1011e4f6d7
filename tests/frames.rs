use std::io::Cursor;
use ui_pilot::errors::OutOfBoundsError;
use ui_pilot::frame::{count_differences, frames_match, Frame, FrameError};
use ui_pilot::geometry::{Coordinate, PhysicalRect, Screen, ScreenRect};
use ui_pilot::location::{ImageTemplate, TemplateError};
use ui_pilot::strategy::LocationStrategyType;

fn solid(w: u32, h: u32, v: u8) -> Frame {
    Frame::new(w, h, vec![v; (4 * w * h) as usize]).unwrap()
}

fn paint(f: &mut Frame, x: u32, y: u32, v: u8) {
    let i = (4 * (y * f.width + x)) as usize;
    f.pixels[i..i + 4].copy_from_slice(&[v, v, v, 255]);
}

fn png_bytes(w: u32, h: u32) -> Vec<u8> {
    let img = image::RgbaImage::from_fn(w, h, |x, y| image::Rgba([x as u8, y as u8, 7, 255]));
    let mut out = Cursor::new(Vec::new());
    img.write_to(&mut out, image::ImageFormat::Png).unwrap();
    out.into_inner()
}

#[test]
fn frame_needs_four_bytes_per_pixel() {
    assert!(Frame::new(2, 2, vec![0; 15]).is_none());
    assert!(Frame::new(2, 2, vec![0; 16]).is_some());
    assert!(Frame::new(0, 5, vec![]).is_some());
}

#[test]
fn differences_are_counted_inside_the_zone_only() {
    let a = solid(10, 10, 0);
    let mut b = solid(10, 10, 0);
    paint(&mut b, 1, 1, 9);
    paint(&mut b, 8, 8, 9);
    let zone = PhysicalRect { x: 0, y: 0, width: 5, height: 5 };
    assert_eq!(count_differences(&a, &b, &zone), 1);
    let all = PhysicalRect { x: 0, y: 0, width: 10, height: 10 };
    assert_eq!(count_differences(&a, &b, &all), 2);
    let elsewhere = PhysicalRect { x: 5, y: 0, width: 5, height: 5 };
    assert_eq!(frames_match(&a, &b, &elsewhere, 0), Ok(true));
    assert_eq!(frames_match(&a, &b, &zone, 0), Ok(false));
}

#[test]
fn tolerance_allows_a_share_of_differing_pixels() {
    let a = solid(10, 10, 0);
    let mut b = solid(10, 10, 0);
    paint(&mut b, 3, 3, 1);
    let all = PhysicalRect { x: 0, y: 0, width: 10, height: 10 };
    assert_eq!(frames_match(&a, &b, &all, 10), Ok(true));
    assert_eq!(frames_match(&a, &b, &all, 9), Ok(false));
    paint(&mut b, 4, 4, 1);
    assert_eq!(frames_match(&a, &b, &all, 10), Ok(false));
    assert_eq!(frames_match(&a, &b, &all, 20), Ok(true));
}

#[test]
fn zone_larger_than_frame_is_a_bounds_error() {
    let a = solid(10, 10, 0);
    let b = solid(10, 8, 0);
    let zone = PhysicalRect { x: 0, y: 0, width: 11, height: 5 };
    assert_eq!(
        frames_match(&a, &b, &zone, 0),
        Err(OutOfBoundsError { x: 0, y: 0, width: 11, height: 5, frame_width: 10, frame_height: 10 })
    );
    let tall = PhysicalRect { x: 0, y: 0, width: 10, height: 9 };
    assert_eq!(
        frames_match(&a, &b, &tall, 0),
        Err(OutOfBoundsError { x: 0, y: 0, width: 10, height: 9, frame_width: 10, frame_height: 8 })
    );
}

#[test]
fn png_bytes_decode_into_a_frame() {
    let f = Frame::from_image_bytes(&png_bytes(3, 2)).unwrap();
    assert_eq!((f.width, f.height), (3, 2));
    assert_eq!(f.pixels.len(), 24);
    assert_eq!(&f.pixels[4 * 5..4 * 6], &[2, 1, 7, 255]);
    assert_eq!(Frame::from_image_bytes(b"not an image").unwrap_err(), FrameError::Undecodable);
}

#[test]
fn template_decodes_image_and_bounds_search_region() {
    let s = Screen::new(1920, 1080, 100).unwrap();
    let bytes = png_bytes(20, 20);
    let t = ImageTemplate::new(
        "button".to_string(),
        &bytes,
        None,
        LocationStrategyType::TemplateMatching,
        &s,
    )
    .unwrap();
    assert_eq!(t.name, "button");
    assert_eq!((t.image.width, t.image.height), (20, 20));
    assert_eq!(t.search_region, ScreenRect::full_screen(&s));
    let c = Coordinate::scaled;
    let region = Some((c(1900), c(10), c(100), c(100)));
    let t = ImageTemplate::new("b".to_string(), &bytes, region, LocationStrategyType::BitmapNeedle, &s)
        .unwrap();
    assert_eq!(t.search_region, ScreenRect { x: 1900, y: 10, width: 20, height: 100 });
    let off = Some((c(2000), c(10), c(100), c(100)));
    assert!(matches!(
        ImageTemplate::new("b".to_string(), &bytes, off, LocationStrategyType::BitmapNeedle, &s),
        Err(TemplateError::SearchRegion(_))
    ));
    assert!(matches!(
        ImageTemplate::new("b".to_string(), b"xx", None, LocationStrategyType::BitmapNeedle, &s),
        Err(TemplateError::Image(FrameError::Undecodable))
    ));
}
