//! Decoded RGBA images: the ball texture and the tray icon, decoded from the
//! embedded PNG bytes.

use vstd::prelude::*;
use crate::pixels::{icon_size, icon_size_spec};

verus! {

/// What `image::load_from_memory` followed by `to_rgba8` makes of `bytes`:
/// `None` where the bytes do not decode, else the width, the height and the
/// row-major RGBA8 pixel bytes.
pub uninterp spec fn decoded_rgba8(bytes: Seq<u8>) -> Option<(u32, u32, Seq<u8>)>;

/// Decodes `bytes` with `image::load_from_memory` (format guessed from the
/// bytes, default limits) and converts the result with `to_rgba8`. Claimed:
/// the outcome is the named function of the bytes, and the pixel buffer
/// holds at least four bytes for each of the `width * height` pixels, which
/// every `ImageBuffer` keeps. A decoding error gives `None`.
#[verifier::external_body]
fn decode_rgba8(bytes: &[u8]) -> (r: Option<(u32, u32, Vec<u8>)>)
    ensures
        r is Some <==> decoded_rgba8(bytes@) is Some,
        r matches Some(t) ==> decoded_rgba8(bytes@) == Some((t.0, t.1, t.2@)),
        r matches Some(t) ==> t.2@.len() >= t.0 * t.1 * 4,
{
    match image::load_from_memory(bytes) {
        Ok(decoded) => {
            let rgba = decoded.to_rgba8();
            let (width, height) = rgba.dimensions();
            Some((width, height, rgba.into_raw()))
        },
        Err(_) => None,
    }
}

/// Scales the RGBA8 image `width` x `height` held in `pixels` to cover a
/// `size` x `size` square and crops it to that square, with
/// `DynamicImage::resize_to_fill` and the Lanczos3 filter, then takes the
/// RGBA8 bytes. Claimed: the result is `size` pixels square and its buffer
/// holds four bytes per pixel. The pixel values are left unstated: the
/// filter kernel evaluates `f32::sin`, whose precision std leaves
/// unspecified. The `requires` rules out empty images and targets, on which
/// the scale ratio divides by zero, and keeps the target small enough that
/// the scaled image never reaches the `u32` limit; the buffer bound makes
/// `ImageBuffer::from_raw` accept the bytes.
#[verifier::external_body]
fn resize_to_fill_rgba8(width: u32, height: u32, pixels: &[u8], size: u32) -> (r: (
    u32,
    u32,
    Vec<u8>,
))
    requires
        width > 0,
        height > 0,
        0 < size <= 64,
        pixels@.len() >= width * height * 4,
    ensures
        r.0 == size,
        r.1 == size,
        r.2@.len() >= r.0 * r.1 * 4,
{
    let source = match image::RgbaImage::from_raw(width, height, pixels.to_vec()) {
        Some(source) => source,
        None => return (0, 0, Vec::new()),
    };
    let filled = image::DynamicImage::ImageRgba8(source).resize_to_fill(
        size,
        size,
        image::imageops::FilterType::Lanczos3,
    ).to_rgba8();
    let (w, h) = filled.dimensions();
    (w, h, filled.into_raw())
}

/// A decoded RGBA8 image: `width` x `height` pixels stored row by row, four
/// bytes (red, green, blue, alpha) per pixel.
pub struct Bitmap {
    width: u32,
    height: u32,
    pixels: Vec<u8>,
}

impl View for Bitmap {
    type V = (u32, u32, Seq<u8>);

    open spec fn view(&self) -> (u32, u32, Seq<u8>) {
        (self.width_spec(), self.height_spec(), self.pixels_spec())
    }
}

impl Bitmap {
    /// The width in pixels.
    pub closed spec fn width_spec(&self) -> u32 {
        self.width
    }

    /// The height in pixels.
    pub closed spec fn height_spec(&self) -> u32 {
        self.height
    }

    /// The pixel bytes.
    pub closed spec fn pixels_spec(&self) -> Seq<u8> {
        self.pixels@
    }

    /// Every pixel has its four bytes.
    #[verifier::type_invariant]
    spec fn covers_every_pixel(&self) -> bool {
        self.pixels@.len() >= self.width * self.height * 4
    }

    pub fn width(&self) -> (w: u32)
        ensures
            w == self@.0,
    {
        self.width
    }

    pub fn height(&self) -> (h: u32)
        ensures
            h == self@.1,
    {
        self.height
    }

    /// The pixel bytes, row by row.
    pub fn pixels(&self) -> (p: &[u8])
        ensures
            p@ == self@.2,
    {
        self.pixels.as_slice()
    }

    /// The red, green, blue and alpha bytes of the pixel in column `x` and
    /// row `y`.
    pub fn texel(&self, x: u32, y: u32) -> (c: (u8, u8, u8, u8))
        requires
            x < self@.0,
            y < self@.1,
        ensures
            c == texel_spec(self@.2, self@.0, x, y),
    {
        proof {
            use_type_invariant(self);
            assert((y + 1) * self.width <= self.height * self.width) by (nonlinear_arith)
                requires
                    y < self.height,
            ;
            assert(y * self.width + x < self.width * self.height) by (nonlinear_arith)
                requires
                    x < self.width,
                    (y + 1) * self.width <= self.height * self.width,
            ;
            assert(y * self.width <= y * self.width + x);
            assert(0 <= y * self.width) by (nonlinear_arith);
        }
        // The buffer's length fits a `usize`, so the index below does too.
        let len: usize = self.pixels.len();
        let i = ((y as usize) * (self.width as usize) + (x as usize)) * 4;
        assert(i + 3 < len);
        (self.pixels[i], self.pixels[i + 1], self.pixels[i + 2], self.pixels[i + 3])
    }
}

/// The four bytes of pixel (`x`, `y`) in the row-major RGBA8 bytes `pixels`
/// of an image `width` pixels wide.
pub open spec fn texel_spec(pixels: Seq<u8>, width: u32, x: u32, y: u32) -> (u8, u8, u8, u8) {
    let i = (y * width + x) * 4;
    (pixels[i], pixels[i + 1], pixels[i + 2], pixels[i + 3])
}

/// Turns a decoded image into a [`Bitmap`]: `None` where nothing decoded or
/// where the bytes fall short of four per pixel.
pub fn bitmap_from_decoded(decoded: Option<(u32, u32, Vec<u8>)>) -> (r: Option<Bitmap>)
    ensures
        r is Some <==> (decoded matches Some(t) && t.2@.len() >= t.0 * t.1 * 4),
        r matches Some(b) ==> (decoded matches Some(t) && b@ == (t.0, t.1, t.2@)),
{
    match decoded {
        Some((width, height, pixels)) => {
            assert(width * height <= 0xffff_ffffu64 * 0xffff_ffffu64) by (nonlinear_arith)
                requires
                    width <= 0xffff_ffffu64,
                    height <= 0xffff_ffffu64,
            ;
            let needed: u64 = (width as u64) * (height as u64);
            let len: usize = pixels.len();
            if needed <= (len as u64) / 4 {
                Some(Bitmap { width, height, pixels })
            } else {
                None
            }
        },
        None => None,
    }
}

/// Decodes the embedded PNG `bytes` (the ball texture) into RGBA8 pixels;
/// `None` where they do not decode.
pub fn decode_image(bytes: &[u8]) -> (r: Option<Bitmap>)
    ensures
        r is Some <==> decoded_rgba8(bytes@) is Some,
        r matches Some(b) ==> decoded_rgba8(bytes@) == Some(b@),
{
    bitmap_from_decoded(decode_rgba8(bytes))
}

/// The tray icon image: the embedded PNG `bytes` decoded and scaled to
/// cover, then cropped to, the square of [`icon_size`] for the small-icon
/// metrics. `None` where the bytes do not decode or decode to an image
/// without pixels. The scaled pixel values depend on floating-point
/// filtering and are not stated.
pub fn icon_image(bytes: &[u8], metric_width: i32, metric_height: i32) -> (r: Option<Bitmap>)
    ensures
        r is Some <==> (decoded_rgba8(bytes@) matches Some(d) && d.0 > 0 && d.1 > 0),
        r matches Some(b) ==> b@.0 == icon_size_spec(metric_width, metric_height) && b@.1
            == icon_size_spec(metric_width, metric_height),
{
    let size = icon_size(metric_width, metric_height);
    let decoded = match decode_image(bytes) {
        Some(decoded) => decoded,
        None => return None,
    };
    if decoded.width() == 0 || decoded.height() == 0 {
        return None;
    }
    proof {
        use_type_invariant(&decoded);
    }
    let resized = resize_to_fill_rgba8(decoded.width(), decoded.height(), decoded.pixels(), size);
    bitmap_from_decoded(Some(resized))
}

} // verus!
