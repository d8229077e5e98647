//! Current-monitor image capture for vision requests: a captured image is
//! scaled down when it is too large, encoded as PNG and handed on in Base64,
//! entirely in memory. Grabbing the monitor is left to the caller.
use vstd::prelude::*;

use std::io::Cursor;

use base64::engine::general_purpose::STANDARD;
use base64::Engine;
use image::imageops::FilterType;
use image::{DynamicImage, ExtendedColorType, ImageFormat, RgbaImage};

use crate::text::owned;

verus! {

/// The longest edge, in pixels, of an image handed to the model.
pub const MAX_IMAGE_EDGE: u32 = 1_920;

#[derive(Debug, Clone)]
pub struct CapturedImage {
    pub png_base64: String,
}

#[derive(Debug, Clone)]
pub struct ImagePreview {
    pub data_url: String,
    pub width: u32,
    pub height: u32,
}

#[derive(Debug, Clone, Copy, PartialEq, Eq, Structural)]
pub enum ScreenCaptureError {
    CursorUnavailable,
    Capture,
    UnsupportedPlatform,
}

/// The text shown to the user for a screen capture error.
pub open spec fn screen_error_text(error: ScreenCaptureError) -> Seq<char> {
    match error {
        ScreenCaptureError::CursorUnavailable => "Snippet could not locate the current monitor."@,
        ScreenCaptureError::Capture => "Snippet could not capture the current screen. Try again."@,
        ScreenCaptureError::UnsupportedPlatform => "Screen capture is currently available on Windows only."@,
    }
}

impl ScreenCaptureError {
    pub fn user_message(&self) -> (r: String)
        ensures
            r@ == screen_error_text(*self),
    {
        match self {
            ScreenCaptureError::CursorUnavailable => owned(
                "Snippet could not locate the current monitor.",
            ),
            ScreenCaptureError::Capture => owned(
                "Snippet could not capture the current screen. Try again.",
            ),
            ScreenCaptureError::UnsupportedPlatform => owned(
                "Screen capture is currently available on Windows only.",
            ),
        }
    }
}

/// The box an image of `width` by `height` pixels must be scaled into,
/// keeping its proportions, or `None` when it is small enough already.
/// Images are never scaled up.
pub fn resize_bounds(width: u32, height: u32) -> (r: Option<(u32, u32)>)
    ensures
        r == (if width <= MAX_IMAGE_EDGE && height <= MAX_IMAGE_EDGE {
            None
        } else {
            Some((MAX_IMAGE_EDGE, MAX_IMAGE_EDGE))
        }),
{
    let largest_edge = if width >= height {
        width
    } else {
        height
    };
    if largest_edge <= MAX_IMAGE_EDGE {
        None
    } else {
        Some((MAX_IMAGE_EDGE, MAX_IMAGE_EDGE))
    }
}

/// The character for the 6-bit value `v` in the standard Base64 alphabet
/// (RFC 4648): `A`-`Z`, `a`-`z`, `0`-`9`, `+`, `/`.
pub open spec fn base64_digit(v: int) -> char {
    if v < 26 {
        (65 + v) as char
    } else if v < 52 {
        (97 + (v - 26)) as char
    } else if v < 62 {
        (48 + (v - 52)) as char
    } else if v == 62 {
        '+'
    } else {
        '/'
    }
}

/// The four characters for the 24-bit group `n`, of which the first
/// `kept` are digits and the rest `=` padding.
pub open spec fn base64_group(n: int, kept: int) -> Seq<char> {
    seq![
        base64_digit(n / 262144),
        base64_digit(n / 4096 % 64),
        if kept >= 3 { base64_digit(n / 64 % 64) } else { '=' },
        if kept >= 4 { base64_digit(n % 64) } else { '=' },
    ]
}

/// The standard Base64 encoding of `bytes`, with `=` padding (RFC 4648,
/// section 4): each group of three bytes becomes four characters, and a
/// last group of one or two bytes is padded.
pub open spec fn standard_base64(bytes: Seq<u8>) -> Seq<char>
    decreases bytes.len(),
{
    if bytes.len() == 0 {
        seq![]
    } else if bytes.len() == 1 {
        base64_group(bytes[0] * 65536, 2)
    } else if bytes.len() == 2 {
        base64_group(bytes[0] * 65536 + bytes[1] * 256, 3)
    } else {
        base64_group(bytes[0] * 65536 + bytes[1] * 256 + bytes[2], 4) + standard_base64(
            bytes.subrange(3, bytes.len() as int),
        )
    }
}

/// The number of characters of the padded Base64 encoding of `n` bytes.
pub open spec fn padded_base64_len(n: nat) -> nat {
    4 * ((n + 2) / 3)
}

/// Calls `STANDARD.encode` from the `base64` crate, whose engine uses the
/// standard alphabet with padding. The claim: the text is the standard
/// Base64 encoding of `bytes`. The crate computes its length first
/// (`encoded_len`, `4 * ceil(n / 3)`). `encode` panics when that
/// length does not fit in `usize`, which `requires` leaves out.
#[verifier::external_body]
fn encode_base64(bytes: &[u8]) -> (r: String)
    requires
        padded_base64_len(bytes@.len()) <= usize::MAX,
    ensures
        r@ == standard_base64(bytes@),
{
    STANDARD.encode(bytes)
}

/// The capture handed to the model, and its preview for the popup: the PNG
/// in Base64, and a `data:` URL of it.
pub fn encode_capture(png: &[u8], width: u32, height: u32) -> (r: (CapturedImage, ImagePreview))
    requires
        padded_base64_len(png@.len()) <= usize::MAX,
    ensures
        r.0.png_base64@ == standard_base64(png@),
        r.1.data_url@ == "data:image/png;base64,"@ + standard_base64(png@),
        r.1.width == width,
        r.1.height == height,
{
    let png_base64 = encode_base64(png);
    let mut data_url = owned("data:image/png;base64,");
    data_url.append(png_base64.as_str());
    (CapturedImage { png_base64 }, ImagePreview { data_url, width, height })
}

// ---------------------------------------------------------------------------
// Scaling and encoding
// ---------------------------------------------------------------------------

/// The RGBA pixels and the width and height of the image `rgba`
/// (`width` by `height` pixels) scaled into a `box_width` by `box_height`
/// box with the triangle filter: what `image::DynamicImage::resize` gives.
pub uninterp spec fn resized_image(
    rgba: Seq<u8>,
    width: u32,
    height: u32,
    box_width: u32,
    box_height: u32,
) -> (Seq<u8>, u32, u32);

/// A `width` by `height` image scaled to `new_width` by `new_height` kept
/// its proportions: one edge fills the box and the other is the exact
/// scaled length, rounded (it is off by less than one pixel).
pub open spec fn keeps_proportions(
    width: u32,
    height: u32,
    new_width: u32,
    new_height: u32,
    box_width: u32,
    box_height: u32,
) -> bool {
    ||| new_width == box_width && -(width as int) < new_height * width - height * new_width
        < width
    ||| new_height == box_height && -(height as int) < new_width * height - width * new_height
        < height
}

/// Calls `image::DynamicImage::resize` with the triangle filter on the RGBA
/// image `rgba` (built with `RgbaImage::from_raw`, which accepts a buffer of
/// exactly `4 * width * height` bytes, as `requires` asks), then takes its
/// pixels back out. The claims, from the crate's `resize_dimensions` (the
/// smaller of the two scale ratios, applied to both edges and rounded, at
/// least 1) and `imageops::resize` (a buffer of exactly the new size): the
/// result is a function of the arguments; the new size lies in the box,
/// each edge at least 1; the buffer has `4 * width * height` bytes; and for
/// an image with pixels the proportions are kept. The pixel values are not
/// stated.
#[verifier::external_body]
fn scale_rgba(rgba: Vec<u8>, width: u32, height: u32, box_width: u32, box_height: u32) -> (r: (
    Vec<u8>,
    u32,
    u32,
))
    requires
        rgba@.len() == 4 * width * height,
        1 <= box_width,
        1 <= box_height,
    ensures
        (r.0@, r.1, r.2) == resized_image(rgba@, width, height, box_width, box_height),
        r.0@.len() == 4 * r.1 * r.2,
        1 <= r.1 <= box_width,
        1 <= r.2 <= box_height,
        width > 0 && height > 0 ==> keeps_proportions(
            width,
            height,
            r.1,
            r.2,
            box_width,
            box_height,
        ),
{
    let image = RgbaImage::from_raw(width, height, rgba).expect("buffer of the stated size");
    let scaled = DynamicImage::ImageRgba8(image).resize(box_width, box_height, FilterType::Triangle)
        .into_rgba8();
    let (new_width, new_height) = scaled.dimensions();
    (scaled.into_raw(), new_width, new_height)
}

/// The PNG encoding of the RGBA image `rgba` (`width` by `height` pixels),
/// or `None` when the encoder refuses it: what
/// `image::write_buffer_with_format` with `ImageFormat::Png` writes.
pub uninterp spec fn png_encoding(rgba: Seq<u8>, width: u32, height: u32) -> Option<Seq<u8>>;

/// Calls `image::write_buffer_with_format` with `ImageFormat::Png` into a
/// buffer in memory. The PNG encoder asserts that the buffer has exactly
/// `4 * width * height` bytes, which `requires` asks for. The claims: the
/// bytes (or the refusal) are a function of the arguments, and, being a
/// `Vec`, they are at most `isize::MAX` long.
#[verifier::external_body]
fn encode_png(rgba: &[u8], width: u32, height: u32) -> (r: Option<Vec<u8>>)
    requires
        rgba@.len() == 4 * width * height,
    ensures
        match png_encoding(rgba@, width, height) {
            Some(bytes) => r matches Some(png) && png@ == bytes,
            None => r is None,
        },
        r matches Some(png) ==> png@.len() <= isize::MAX,
{
    let mut png = Vec::new();
    match image::write_buffer_with_format(
        &mut Cursor::new(&mut png),
        rgba,
        width,
        height,
        ExtendedColorType::Rgba8,
        ImageFormat::Png,
    ) {
        Ok(()) => Some(png),
        Err(_) => None,
    }
}

/// Whether an image of `width` by `height` pixels is scaled down.
pub open spec fn needs_scaling(width: u32, height: u32) -> bool {
    width > MAX_IMAGE_EDGE || height > MAX_IMAGE_EDGE
}

/// The pixels and size of a captured image as they are handed on: scaled
/// into a `MAX_IMAGE_EDGE` square when an edge is longer, else unchanged.
pub open spec fn captured_pixels(rgba: Seq<u8>, width: u32, height: u32) -> (Seq<u8>, u32, u32) {
    if needs_scaling(width, height) {
        resized_image(rgba, width, height, MAX_IMAGE_EDGE, MAX_IMAGE_EDGE)
    } else {
        (rgba, width, height)
    }
}

/// A capture whose edges are both at most 1920 pixels is handed on as it
/// is: the same pixels and the same size. Only an image with a longer edge is
/// scaled, and then into the 1920-pixel square, so never to a larger size.
pub proof fn small_captures_are_unchanged(rgba: Seq<u8>, width: u32, height: u32)
    ensures
        width <= 1920 && height <= 1920 ==> captured_pixels(rgba, width, height) == (
            rgba,
            width,
            height,
        ),
        width > 1920 || height > 1920 ==> captured_pixels(rgba, width, height) == resized_image(
            rgba,
            width,
            height,
            1920,
            1920,
        ),
{
}

/// The captured image scaled down, keeping its proportions, when an edge
/// is longer than `MAX_IMAGE_EDGE`; smaller images are left as they are.
pub fn resize_if_needed(rgba: Vec<u8>, width: u32, height: u32) -> (r: (Vec<u8>, u32, u32))
    requires
        rgba@.len() == 4 * width * height,
    ensures
        (r.0@, r.1, r.2) == captured_pixels(rgba@, width, height),
        r.0@.len() == 4 * r.1 * r.2,
        needs_scaling(width, height) ==> 1 <= r.1 <= MAX_IMAGE_EDGE && 1 <= r.2 <= MAX_IMAGE_EDGE,
        needs_scaling(width, height) && width > 0 && height > 0 ==> keeps_proportions(
            width,
            height,
            r.1,
            r.2,
            MAX_IMAGE_EDGE,
            MAX_IMAGE_EDGE,
        ),
{
    match resize_bounds(width, height) {
        None => (rgba, width, height),
        Some((box_width, box_height)) => scale_rgba(rgba, width, height, box_width, box_height),
    }
}

/// A captured image, ready for the model and the popup: scaled down when
/// too large, encoded as PNG, and handed on in Base64 and as a `data:` URL.
/// The capture fails when the PNG encoder refuses the image.
pub fn prepare_capture(rgba: Vec<u8>, width: u32, height: u32) -> (r: Result<
    (CapturedImage, ImagePreview),
    ScreenCaptureError,
>)
    requires
        rgba@.len() == 4 * width * height,
    ensures
        ({
            let (pixels, new_width, new_height) = captured_pixels(rgba@, width, height);
            match png_encoding(pixels, new_width, new_height) {
                None => r == Err::<(CapturedImage, ImagePreview), ScreenCaptureError>(
                    ScreenCaptureError::Capture,
                ),
                Some(png) => r matches Ok((image, preview)) && image.png_base64@ == standard_base64(
                    png,
                ) && preview.data_url@ == "data:image/png;base64,"@ + standard_base64(png)
                    && preview.width == new_width && preview.height == new_height,
            }
        }),
        r matches Ok((image, preview)) ==> (preview.width <= MAX_IMAGE_EDGE && preview.height
            <= MAX_IMAGE_EDGE),
        r matches Ok((image, preview)) ==> (!needs_scaling(width, height) ==> preview.width
            == width && preview.height == height),
        r matches Ok((image, preview)) ==> (needs_scaling(width, height) && width > 0 && height
            > 0 ==> keeps_proportions(
            width,
            height,
            preview.width,
            preview.height,
            MAX_IMAGE_EDGE,
            MAX_IMAGE_EDGE,
        )),
{
    let (pixels, new_width, new_height) = resize_if_needed(rgba, width, height);
    match encode_png(pixels.as_slice(), new_width, new_height) {
        None => Err(ScreenCaptureError::Capture),
        Some(png) => {
            assert(padded_base64_len(png@.len()) <= usize::MAX);
            Ok(encode_capture(png.as_slice(), new_width, new_height))
        },
    }
}

} // verus!
