//! Captured frames and their comparison inside a check-zone.
//!
//! A frame is an RGBA raster in physical pixels, four bytes per pixel, row
//! after row. Two frames count as the same inside a zone when the share of
//! its pixels that differ is at most a tolerance, given in thousandths.
use crate::errors::OutOfBoundsError;
use crate::geometry::PhysicalRect;
use vstd::prelude::*;

verus! {

/// The image crate's decoding error, carried without looking inside.
#[verifier::external_type_specification]
#[verifier::external_body]
pub struct ExImageError(image::ImageError);

/// What decoding `bytes` as a PNG image and converting it to 8-bit RGBA
/// gives: its width, height and raw bytes, or `None` when the bytes are no
/// PNG image.
pub uninterp spec fn decoded_rgba(bytes: Seq<u8>) -> Option<(u32, u32, Seq<u8>)>;

/// Relies on `image::load_from_memory_with_format` with the built-in PNG
/// decoder, then `DynamicImage::to_rgba8` and `ImageBuffer::into_raw`: with
/// the format fixed, no registered hook takes part, and the decoded image
/// depends on the bytes alone.
#[verifier::external_body]
fn decode_rgba(bytes: &[u8]) -> (r: Result<(u32, u32, Vec<u8>), image::ImageError>)
    ensures
        r matches Ok((w, h, px)) ==> decoded_rgba(bytes@) == Some((w, h, px@)),
        r is Err ==> decoded_rgba(bytes@) is None,
{
    let rgba = image::load_from_memory_with_format(bytes, image::ImageFormat::Png)?.to_rgba8();
    Ok((rgba.width(), rgba.height(), rgba.into_raw()))
}

/// What decoding `bytes` into a frame gives: its width, height and pixel
/// bytes, or the reason it fails.
pub open spec fn decoded_frame(bytes: Seq<u8>) -> Result<(u32, u32, Seq<u8>), FrameError> {
    match decoded_rgba(bytes) {
        None => Err(FrameError::Undecodable),
        Some((w, h, px)) => if px.len() == 4 * (w as int) * (h as int) {
            Ok((w, h, px))
        } else {
            Err(FrameError::SizeMismatch)
        },
    }
}

/// Why bytes could not become a frame.
#[derive(Debug, Clone, Copy, PartialEq, Eq, Structural)]
pub enum FrameError {
    /// The bytes are not a PNG image that can be read.
    Undecodable,
    /// The pixel data does not hold four bytes for each pixel.
    SizeMismatch,
}

/// An RGBA raster in physical pixels.
#[derive(Debug)]
pub struct Frame {
    pub width: u32,
    pub height: u32,
    pub pixels: Vec<u8>,
}

impl Frame {
    /// Holds exactly four bytes for each pixel.
    pub open spec fn wf(&self) -> bool {
        self.pixels@.len() == 4 * (self.width as int) * (self.height as int)
    }

    /// A frame of the given size; `None` unless there are four bytes for
    /// each pixel.
    pub fn new(width: u32, height: u32, pixels: Vec<u8>) -> (r: Option<Frame>)
        ensures
            r is Some <==> pixels@.len() == 4 * (width as int) * (height as int),
            r matches Some(f) ==> f.width == width && f.height == height && f.pixels@
                == pixels@ && f.wf(),
    {
        assert(4 * (width as int) * (height as int) <= 4 * 0xffff_ffff * 0xffff_ffff)
            by (nonlinear_arith)
            requires
                width <= 0xffff_ffff,
                height <= 0xffff_ffff,
        ;
        if pixels.len() as u128 == 4 * (width as u128) * (height as u128) {
            Some(Frame { width, height, pixels })
        } else {
            None
        }
    }

    /// Decodes a PNG file held in memory into a frame.
    pub fn from_image_bytes(bytes: &[u8]) -> (r: Result<Frame, FrameError>)
        ensures
            ({
                match decoded_frame(bytes@) {
                    Ok((w, h, px)) => r matches Ok(f) && f.width == w && f.height == h && f.pixels@
                        == px,
                    Err(e) => r == Err::<Frame, FrameError>(e),
                }
            }),
            r matches Ok(f) ==> f.wf(),
    {
        match decode_rgba(bytes) {
            Ok((w, h, px)) => match Frame::new(w, h, px) {
                Some(f) => Ok(f),
                None => Err(FrameError::SizeMismatch),
            },
            Err(_) => Err(FrameError::Undecodable),
        }
    }
}

/// The zone lies inside the frame.
pub open spec fn zone_within(z: PhysicalRect, f: &Frame) -> bool {
    z.x + z.width <= f.width && z.y + z.height <= f.height
}

/// Byte `k` of the pixel at column `px`, row `py`.
pub open spec fn channel(f: &Frame, px: int, py: int, k: int) -> u8 {
    f.pixels@[4 * (py * f.width + px) + k]
}

/// The pixel at `(px, py)` has the same four bytes in both frames.
pub open spec fn pixel_same(a: &Frame, b: &Frame, px: int, py: int) -> bool {
    &&& channel(a, px, py, 0) == channel(b, px, py, 0)
    &&& channel(a, px, py, 1) == channel(b, px, py, 1)
    &&& channel(a, px, py, 2) == channel(b, px, py, 2)
    &&& channel(a, px, py, 3) == channel(b, px, py, 3)
}

/// How many of the first `n` pixels of row `row` of the zone differ.
pub open spec fn row_diff(a: &Frame, b: &Frame, z: PhysicalRect, row: int, n: int) -> nat
    decreases n,
{
    if n <= 0 {
        0
    } else {
        row_diff(a, b, z, row, n - 1) + if pixel_same(a, b, z.x + n - 1, z.y + row) {
            0nat
        } else {
            1nat
        }
    }
}

/// How many pixels of the first `rows` rows of the zone differ.
pub open spec fn zone_diff(a: &Frame, b: &Frame, z: PhysicalRect, rows: int) -> nat
    decreases rows,
{
    if rows <= 0 {
        0
    } else {
        zone_diff(a, b, z, rows - 1) + row_diff(a, b, z, rows - 1, z.width as int)
    }
}

/// The share of differing pixels in the zone is at most `tolerance_permille`
/// thousandths.
pub open spec fn frames_same(a: &Frame, b: &Frame, z: PhysicalRect, tolerance_permille: int) -> bool {
    zone_diff(a, b, z, z.height as int) * 1000 <= tolerance_permille * z.width * z.height
}

/// The error for a zone that does not fit the frame `f`.
pub open spec fn zone_error(z: PhysicalRect, f: &Frame) -> OutOfBoundsError {
    OutOfBoundsError {
        x: z.x,
        y: z.y,
        width: z.width,
        height: z.height,
        frame_width: f.width,
        frame_height: f.height,
    }
}

proof fn lemma_row_diff_bound(a: &Frame, b: &Frame, z: PhysicalRect, row: int, n: int)
    requires
        n >= 0,
    ensures
        row_diff(a, b, z, row, n) <= n,
    decreases n,
{
    if n > 0 {
        lemma_row_diff_bound(a, b, z, row, n - 1);
    }
}

proof fn lemma_zone_diff_bound(a: &Frame, b: &Frame, z: PhysicalRect, rows: int)
    requires
        rows >= 0,
    ensures
        zone_diff(a, b, z, rows) <= rows * z.width,
    decreases rows,
{
    if rows > 0 {
        lemma_zone_diff_bound(a, b, z, rows - 1);
        lemma_row_diff_bound(a, b, z, rows - 1, z.width as int);
        assert((rows - 1) * z.width + z.width == rows * z.width) by (nonlinear_arith);
    }
}

/// The bytes of pixel `(px, py)` lie inside a well-formed frame.
proof fn lemma_pixel_index(f: &Frame, px: int, py: int)
    requires
        f.wf(),
        0 <= px < f.width,
        0 <= py < f.height,
    ensures
        0 <= py * f.width,
        4 * (py * f.width + px) + 3 < f.pixels@.len(),
{
    let w = f.width as int;
    let h = f.height as int;
    assert(0 <= py * w && py * w + w <= h * w) by (nonlinear_arith)
        requires
            0 <= py < h,
            w >= 0,
    ;
    assert(4 * w * h == 4 * (h * w)) by (nonlinear_arith);
}

/// Byte `k` of pixel `(px, py)`.
fn channel_at(f: &Frame, px: u64, py: u64, k: usize) -> (r: u8)
    requires
        f.wf(),
        px < f.width,
        py < f.height,
        k < 4,
    ensures
        r == channel(f, px as int, py as int, k as int),
{
    let len = f.pixels.len();
    proof {
        lemma_pixel_index(f, px as int, py as int);
    }
    let i = 4 * ((py as usize) * (f.width as usize) + (px as usize)) + k;
    assert(i < len);
    f.pixels[i]
}

fn pixel_same_at(a: &Frame, b: &Frame, px: u64, py: u64) -> (r: bool)
    requires
        a.wf(),
        b.wf(),
        px < a.width,
        py < a.height,
        px < b.width,
        py < b.height,
    ensures
        r == pixel_same(a, b, px as int, py as int),
{
    channel_at(a, px, py, 0) == channel_at(b, px, py, 0) && channel_at(a, px, py, 1)
        == channel_at(b, px, py, 1) && channel_at(a, px, py, 2) == channel_at(b, px, py, 2)
        && channel_at(a, px, py, 3) == channel_at(b, px, py, 3)
}

/// Whether the zone lies inside the frame.
pub fn zone_fits(z: &PhysicalRect, f: &Frame) -> (r: bool)
    ensures
        r == zone_within(*z, f),
{
    (z.x as u128) + (z.width as u128) <= f.width as u128 && (z.y as u128) + (z.height as u128)
        <= f.height as u128
}

/// Counts the pixels of the zone that differ between the two frames.
pub fn count_differences(a: &Frame, b: &Frame, z: &PhysicalRect) -> (r: u64)
    requires
        a.wf(),
        b.wf(),
        zone_within(*z, a),
        zone_within(*z, b),
    ensures
        r == zone_diff(a, b, *z, z.height as int),
{
    let mut count: u64 = 0;
    let mut row: u64 = 0;
    while row < z.height
        invariant
            a.wf(),
            b.wf(),
            zone_within(*z, a),
            zone_within(*z, b),
            row <= z.height,
            count == zone_diff(a, b, *z, row as int),
        decreases z.height - row,
    {
        let mut col: u64 = 0;
        let mut in_row: u64 = 0;
        while col < z.width
            invariant
                a.wf(),
                b.wf(),
                zone_within(*z, a),
                zone_within(*z, b),
                row < z.height,
                col <= z.width,
                in_row == row_diff(a, b, *z, row as int, col as int),
            decreases z.width - col,
        {
            proof {
                lemma_row_diff_bound(a, b, *z, row as int, col as int);
            }
            if !pixel_same_at(a, b, z.x + col, z.y + row) {
                in_row = in_row + 1;
            }
            col = col + 1;
        }
        proof {
            lemma_zone_diff_bound(a, b, *z, row as int + 1);
            assert((row + 1) * z.width <= 0xffff_ffff * 0xffff_ffff) by (nonlinear_arith)
                requires
                    row + 1 <= z.height,
                    z.height <= 0xffff_ffff,
                    z.width <= 0xffff_ffff,
            ;
        }
        count = count + in_row;
        row = row + 1;
    }
    count
}

/// Compares two frames inside a zone: `Ok(true)` when at most
/// `tolerance_permille` thousandths of its pixels differ, and an error,
/// never a silent crop, when the zone does not fit either frame.
pub fn frames_match(a: &Frame, b: &Frame, z: &PhysicalRect, tolerance_permille: u32) -> (r:
    Result<bool, OutOfBoundsError>)
    requires
        a.wf(),
        b.wf(),
    ensures
        !zone_within(*z, a) ==> r == Err::<bool, OutOfBoundsError>(zone_error(*z, a)),
        zone_within(*z, a) && !zone_within(*z, b) ==> r == Err::<bool, OutOfBoundsError>(
            zone_error(*z, b),
        ),
        zone_within(*z, a) && zone_within(*z, b) ==> r == Ok::<bool, OutOfBoundsError>(
            frames_same(a, b, *z, tolerance_permille as int),
        ),
{
    if !zone_fits(z, a) {
        return Err(
            OutOfBoundsError {
                x: z.x,
                y: z.y,
                width: z.width,
                height: z.height,
                frame_width: a.width,
                frame_height: a.height,
            },
        );
    }
    if !zone_fits(z, b) {
        return Err(
            OutOfBoundsError {
                x: z.x,
                y: z.y,
                width: z.width,
                height: z.height,
                frame_width: b.width,
                frame_height: b.height,
            },
        );
    }
    let diff = count_differences(a, b, z);
    assert(z.width * z.height <= 0xffff_ffff * 0xffff_ffff) by (nonlinear_arith)
        requires
            z.width <= 0xffff_ffff,
            z.height <= 0xffff_ffff,
    ;
    let area = (z.width as u128) * (z.height as u128);
    assert(tolerance_permille * area <= 0xffff_ffff * (0xffff_ffff * 0xffff_ffff)) by (nonlinear_arith)
        requires
            area <= 0xffff_ffff * 0xffff_ffff,
            tolerance_permille <= 0xffff_ffff,
    ;
    assert((tolerance_permille as u128) * area == tolerance_permille * z.width * z.height)
        by (nonlinear_arith)
        requires
            area == z.width * z.height,
    ;
    Ok((diff as u128) * 1000 <= (tolerance_permille as u128) * area)
}

} // verus!
