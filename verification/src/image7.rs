//! Quantizing RGB images onto the display's 7-colour palette, two 4-bit
//! pixels per byte.
//!
//! PNG decoding is done by the image crate behind a trusted wrapper; the
//! palette matching and nibble packing — the logic that decides every output
//! byte — is verified.

use vstd::prelude::*;

verus! {

/// The display palette: black, white, green, blue, red, yellow, orange and
/// the cleaning colour.
pub open spec fn spec_palette(i: int) -> (int, int, int) {
    if i == 0 {
        (0, 0, 0)
    } else if i == 1 {
        (255, 255, 255)
    } else if i == 2 {
        (67, 138, 28)
    } else if i == 3 {
        (100, 64, 255)
    } else if i == 4 {
        (191, 0, 0)
    } else if i == 5 {
        (255, 243, 56)
    } else if i == 6 {
        (232, 126, 0)
    } else {
        (194, 164, 244)
    }
}

/// Squared Euclidean distance between a colour and palette entry `i`.
pub open spec fn spec_palette_dist(r: int, g: int, b: int, i: int) -> int {
    let (pr, pg, pb) = spec_palette(i);
    (r - pr) * (r - pr) + (g - pg) * (g - pg) + (b - pb) * (b - pb)
}

fn palette_entry(i: u8) -> (p: (u8, u8, u8))
    requires
        i < 8,
    ensures
        (p.0 as int, p.1 as int, p.2 as int) == spec_palette(i as int),
{
    match i {
        0 => (0, 0, 0),
        1 => (255, 255, 255),
        2 => (67, 138, 28),
        3 => (100, 64, 255),
        4 => (191, 0, 0),
        5 => (255, 243, 56),
        6 => (232, 126, 0),
        _ => (194, 164, 244),
    }
}

/// The palette index a colour quantizes to: nearest by squared Euclidean
/// distance, first entry winning ties.
pub open spec fn spec_depalette(r: int, g: int, b: int) -> int {
    spec_best_entry(r, g, b, 8)
}

/// The nearest palette entry among the first `n`, earliest entry winning
/// ties.
pub open spec fn spec_best_entry(r: int, g: int, b: int, n: int) -> int
    decreases n,
{
    if n <= 1 {
        0
    } else {
        let prev = spec_best_entry(r, g, b, n - 1);
        if spec_palette_dist(r, g, b, n - 1) < spec_palette_dist(r, g, b, prev) {
            n - 1
        } else {
            prev
        }
    }
}

fn palette_dist(r: u8, g: u8, b: u8, i: u8) -> (d: i32)
    requires
        i < 8,
    ensures
        d as int == spec_palette_dist(r as int, g as int, b as int, i as int),
{
    let (pr, pg, pb) = palette_entry(i);
    let dr = r as i32 - pr as i32;
    let dg = g as i32 - pg as i32;
    let db = b as i32 - pb as i32;
    proof {
        assert(0 <= dr * dr <= 65025 && 0 <= dg * dg <= 65025 && 0 <= db * db <= 65025)
            by (nonlinear_arith)
            requires
                -255 <= dr <= 255,
                -255 <= dg <= 255,
                -255 <= db <= 255,
        ;
    }
    dr * dr + dg * dg + db * db
}

/// Finds the closest palette colour index for an RGB colour: the result is
/// within the palette, no entry is strictly closer, and every earlier entry
/// is strictly farther (the first minimal entry wins).
pub fn depalette(r: u8, g: u8, b: u8) -> (best: u8)
    ensures
        best < 8,
        best as int == spec_depalette(r as int, g as int, b as int),
        forall|j: int|
            0 <= j < 8 ==> spec_palette_dist(r as int, g as int, b as int, best as int)
                <= spec_palette_dist(r as int, g as int, b as int, j),
        forall|j: int|
            0 <= j < best ==> spec_palette_dist(r as int, g as int, b as int, best as int)
                < spec_palette_dist(r as int, g as int, b as int, j),
{
    let mut best: u8 = 0;
    let mut min_diff: i32 = palette_dist(r, g, b, 0);
    let mut i: u8 = 1;
    while i < 8
        invariant
            1 <= i <= 8,
            best < i,
            min_diff as int == spec_palette_dist(r as int, g as int, b as int, best as int),
            best as int == spec_best_entry(r as int, g as int, b as int, i as int),
            forall|j: int|
                0 <= j < i ==> min_diff as int <= spec_palette_dist(r as int, g as int, b as int, j),
            forall|j: int|
                0 <= j < best ==> (min_diff as int) < spec_palette_dist(r as int, g as int, b as int, j),
        decreases 8 - i,
    {
        let d = palette_dist(r, g, b, i);
        if d < min_diff {
            min_diff = d;
            best = i;
        }
        i += 1;
    }
    best
}

/// The RGB triple of pixel `(x, y)` in a row-major byte buffer.
pub open spec fn spec_pixel(rgb: Seq<u8>, w: int, x: int, y: int) -> (int, int, int) {
    (
        rgb[3 * (y * w + x)] as int,
        rgb[3 * (y * w + x) + 1] as int,
        rgb[3 * (y * w + x) + 2] as int,
    )
}

/// The quantized palette index of pixel `(x, y)`.
pub open spec fn spec_pixel_index(rgb: Seq<u8>, w: int, x: int, y: int) -> int {
    let (r, g, b) = spec_pixel(rgb, w, x, y);
    spec_depalette(r, g, b)
}

/// The packed output byte `i` of row `y`: the pixel at `x = 2i` in the high
/// nibble and its right neighbour — or zero past an odd row end — in the low
/// nibble.
pub open spec fn spec_packed_byte(rgb: Seq<u8>, w: int, y: int, i: int) -> int {
    let hi = spec_pixel_index(rgb, w, 2 * i, y);
    let lo = if 2 * i + 1 < w {
        spec_pixel_index(rgb, w, 2 * i + 1, y)
    } else {
        0
    };
    hi * 16 + lo
}

/// Bytes per packed row: two pixels per byte, rounded up.
pub open spec fn spec_row_bytes(w: int) -> int {
    (w + 1) / 2
}

fn pixel_index(rgb: &Vec<u8>, w: usize, x: usize, y: usize) -> (c: u8)
    requires
        3 * (y * w + x) + 2 < rgb@.len(),
        y * w + x < 0x20000000,
    ensures
        c as int == spec_pixel_index(rgb@, w as int, x as int, y as int),
        c < 8,
{
    proof {
        vstd::arithmetic::mul::lemma_mul_nonnegative(y as int, w as int);
    }
    let base = 3 * (y * w + x);
    depalette(rgb[base], rgb[base + 1], rgb[base + 2])
}

/// Packs a row-major RGB byte buffer into the raw 7-colour format: each
/// pixel quantized to the palette, two 4-bit indices per byte, rows padded
/// with a zero low nibble when the width is odd.
pub fn rgb_to_raw_7color(rgb: &Vec<u8>, width: usize, height: usize) -> (out: Vec<u8>)
    requires
        rgb@.len() == 3 * width * height,
        width <= 20000,
        height <= 20000,
    ensures
        out@.len() == spec_row_bytes(width as int) * height,
        forall|y: int, i: int|
            0 <= y < height && 0 <= i < spec_row_bytes(width as int)
                ==> #[trigger] out@[y * spec_row_bytes(width as int) + i] as int
                == spec_packed_byte(rgb@, width as int, y, i),
{
    let row_bytes = (width + 1) / 2;
    let mut out: Vec<u8> = Vec::new();
    let mut y: usize = 0;
    while y < height
        invariant
            y <= height,
            rgb@.len() == 3 * width * height,
            width <= 20000,
            height <= 20000,
            row_bytes == spec_row_bytes(width as int),
            out@.len() == y * row_bytes,
            forall|yy: int, i: int|
                0 <= yy < y && 0 <= i < row_bytes ==> #[trigger] out@[yy * row_bytes + i] as int
                    == spec_packed_byte(rgb@, width as int, yy, i),
        decreases height - y,
    {
        let mut i: usize = 0;
        while i < row_bytes
            invariant
                y < height,
                i <= row_bytes,
                rgb@.len() == 3 * width * height,
                width <= 20000,
                height <= 20000,
                row_bytes == spec_row_bytes(width as int),
                out@.len() == y * row_bytes + i,
                forall|yy: int, k: int|
                    0 <= yy < y && 0 <= k < row_bytes ==> #[trigger] out@[yy * row_bytes + k] as int
                        == spec_packed_byte(rgb@, width as int, yy, k),
                forall|k: int|
                    0 <= k < i ==> #[trigger] out@[y * row_bytes + k] as int == spec_packed_byte(
                        rgb@,
                        width as int,
                        y as int,
                        k,
                    ),
            decreases row_bytes - i,
        {
            let x1 = 2 * i;
            proof {
                assert(x1 < width);
                vstd::arithmetic::mul::lemma_mul_inequality(
                    (y + 1) as int,
                    height as int,
                    width as int,
                );
                assert(3 * (y * width + x1) + 2 < rgb@.len() && y * width + x1 < 0x20000000)
                    by (nonlinear_arith)
                    requires
                        x1 < width,
                        y < height,
                        width <= 20000,
                        height <= 20000,
                        rgb@.len() == 3 * width * height,
                ;
            }
            let c1 = pixel_index(rgb, width, x1, y);
            let c2: u8 = if x1 + 1 < width {
                proof {
                    assert(3 * (y * width + (x1 + 1)) + 2 < rgb@.len() && y * width + (x1 + 1)
                        < 0x20000000) by (nonlinear_arith)
                        requires
                            x1 + 1 < width,
                            y < height,
                            width <= 20000,
                            height <= 20000,
                            rgb@.len() == 3 * width * height,
                    ;
                }
                pixel_index(rgb, width, x1 + 1, y)
            } else {
                0
            };
            out.push(c1 * 16 + c2);
            proof {
                assert forall|yy: int, k: int|
                    0 <= yy < y && 0 <= k < row_bytes implies #[trigger] (yy * row_bytes + k) < y
                        * row_bytes by {
                    assert(yy * row_bytes + k < y * row_bytes) by (nonlinear_arith)
                        requires
                            0 <= yy < y,
                            0 <= k < row_bytes,
                    ;
                }
            }
            i += 1;
        }
        y += 1;
        proof {
            assert(out@.len() == y * row_bytes) by (nonlinear_arith)
                requires
                    out@.len() == (y - 1) * row_bytes + row_bytes,
            ;
        }
    }
    proof {
        assert(out@.len() == spec_row_bytes(width as int) * height) by (nonlinear_arith)
            requires
                out@.len() == height * spec_row_bytes(width as int),
        ;
    }
    out
}

/// A decoded RGB image as plain values: dimensions and a row-major byte
/// buffer of exactly three bytes per pixel.
pub struct RgbPixels {
    pub width: usize,
    pub height: usize,
    pub bytes: Vec<u8>,
}

/// What the image crate decodes a byte buffer to: the decoding is a function
/// of the bytes alone.
pub uninterp spec fn decoded_rgb_of(data: Seq<u8>) -> (int, int, Seq<u8>);

/// Whether the image crate accepts a byte buffer as an image at all; like
/// the decoding itself, this depends on the bytes alone.
pub uninterp spec fn image_decodes(data: Seq<u8>) -> bool;

/// Relies on `image::load_from_memory` and `DynamicImage::to_rgb8`: whether
/// the bytes decode depends on the bytes alone; a successful decode yields
/// an RGB8 buffer whose length is exactly three bytes per pixel of the
/// reported dimensions. A failure is reported as the crate's error message.
#[verifier::external_body]
fn decode_rgb8(data: &Vec<u8>) -> (r: Result<RgbPixels, String>)
    ensures
        r is Ok <==> image_decodes(data@),
        r matches Ok(p) ==> (p.width as int, p.height as int, p.bytes@) == decoded_rgb_of(data@)
            && p.bytes@.len() == 3 * p.width * p.height,
{
    let img = image::load_from_memory(data).map_err(|e| e.to_string())?;
    let rgb = img.to_rgb8();
    let (width, height) = rgb.dimensions();
    Ok(
        RgbPixels {
            width: width as usize,
            height: height as usize,
            bytes: rgb.into_raw(),
        },
    )
}

/// Converts PNG bytes to the packed 7-colour format: the image is decoded by
/// the image crate, then every pixel is quantized and packed by
/// [`rgb_to_raw_7color`]. Oversized images are rejected rather than packed.
pub fn convert_png_bytes_to_raw_7color(png_data: &Vec<u8>) -> (r: Result<Vec<u8>, String>)
    ensures
        r is Ok <==> image_decodes(png_data@) && ({
            let (w, h, bytes) = decoded_rgb_of(png_data@);
            w <= 20000 && h <= 20000
        }),
        r matches Ok(out) ==> ({
            let (w, h, bytes) = decoded_rgb_of(png_data@);
            &&& out@.len() == spec_row_bytes(w) * h
            &&& forall|y: int, i: int|
                0 <= y < h && 0 <= i < spec_row_bytes(w) ==> #[trigger] out@[y * spec_row_bytes(w)
                    + i] as int == spec_packed_byte(bytes, w, y, i)
        }),
{
    let pixels = match decode_rgb8(png_data) {
        Ok(p) => p,
        Err(e) => {
            return Err(e);
        },
    };
    if pixels.width > 20000 || pixels.height > 20000 {
        return Err("image too large".to_owned());
    }
    Ok(rgb_to_raw_7color(&pixels.bytes, pixels.width, pixels.height))
}

} // verus!
