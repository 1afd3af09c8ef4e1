//! Screenshot images: the black-frame test, re-encoding a capture at 960×540 as PNG,
//! and its Base64 text. Decoding, resizing and PNG encoding are the `image` crate's;
//! Base64 is the `base64` crate's standard engine.

use vstd::prelude::*;

verus! {

/// The smallest screenshot file, in bytes, that is worth decoding.
pub const MIN_CAPTURE_BYTES: usize = 500;

/// A decoded image (`image::DynamicImage`).
#[verifier::external_type_specification]
#[verifier::external_body]
pub struct ExDynamicImage(image::DynamicImage);

/// The width of the box a screenshot is scaled to fit.
pub const CAPTURE_WIDTH: u32 = 960;

/// The height of the box a screenshot is scaled to fit.
pub const CAPTURE_HEIGHT: u32 = 540;

/// Whether `image::load_from_memory` decodes these bytes.
pub uninterp spec fn image_decodes(bytes: Seq<u8>) -> bool;

/// The pixels of the image that `image::load_from_memory` decodes from these bytes, as
/// `to_rgb8` gives them: red, green, blue bytes, row by row.
pub uninterp spec fn decoded_rgb8(bytes: Seq<u8>) -> Seq<u8>;

/// The `Display` text of the error that `image::load_from_memory` gives for these bytes.
pub uninterp spec fn decode_error_text(bytes: Seq<u8>) -> Seq<char>;

/// What becomes of the image decoded from `png` when it is resized to fit within
/// `width`×`height` (Lanczos3, aspect ratio kept) and written as PNG: the PNG file, or
/// the `Display` text of the encoder's error.
pub uninterp spec fn scaled_png(png: Seq<u8>, width: u32, height: u32) -> Result<Seq<u8>, Seq<char>>;

/// A screenshot file as the `image` crate decoded it, with its pixels as red, green,
/// blue bytes. Its view is the file it was decoded from.
pub struct DecodedImage {
    image: image::DynamicImage,
    pixels: Vec<u8>,
    source: Ghost<Seq<u8>>,
}

impl View for DecodedImage {
    type V = Seq<u8>;

    closed spec fn view(&self) -> Seq<u8> {
        self.source@
    }
}

impl DecodedImage {
    /// The decoded pixels: red, green, blue bytes, row by row.
    pub closed spec fn rgb(&self) -> Seq<u8> {
        self.pixels@
    }

    /// The decoded pixels: red, green, blue bytes, row by row.
    pub fn rgb_bytes(&self) -> (r: &[u8])
        ensures
            r@ == self.rgb(),
    {
        self.pixels.as_slice()
    }
}

/// `image::load_from_memory`: guesses the format from the bytes and decodes them; the
/// pixels are taken with `to_rgb8` and `into_raw`, and an error is handed back as its
/// `Display` text. Stated, each as a function of the bytes: whether decoding succeeds,
/// the pixels, and the error text; and that the pixels come in whole pixels. The
/// decoded image carries the bytes it came from as its view.
#[verifier::external_body]
fn load_image(bytes: &[u8]) -> (r: Result<DecodedImage, String>)
    ensures
        r is Ok <==> image_decodes(bytes@),
        r matches Ok(d) ==> d@ == bytes@ && d.rgb() == decoded_rgb8(bytes@) && d.rgb().len() % 3 == 0,
        r matches Err(e) ==> e@ == decode_error_text(bytes@),
{
    match image::load_from_memory(bytes) {
        Ok(image) => {
            let pixels = image.to_rgb8().into_raw();
            Ok(DecodedImage { image, pixels, source: Ghost(bytes@) })
        },
        Err(e) => Err(e.to_string()),
    }
}

/// A PNG file or an error text, as plain values.
pub open spec fn bytes_or_text(r: Result<Vec<u8>, String>) -> Result<Seq<u8>, Seq<char>> {
    match r {
        Ok(v) => Ok(v@),
        Err(e) => Err(e@),
    }
}

/// `DynamicImage::resize` with the Lanczos3 filter (the image scaled to fit within
/// `width`×`height`, aspect ratio kept), then `DynamicImage::write_to` with
/// `ImageFormat::Png` into a byte vector; an error comes back as its `Display` text.
/// Both depend on the decoded image alone, so the outcome is stated as the name
/// `scaled_png` of the file the image was decoded from; when encoding fails is not
/// stated. The box is at most 960×540, which keeps the scaled image's buffer small
/// (a box large enough to overflow the buffer's size makes `resize` panic).
#[verifier::external_body]
fn scale_to_png(d: &DecodedImage, width: u32, height: u32) -> (r: Result<Vec<u8>, String>)
    requires
        width <= CAPTURE_WIDTH,
        height <= CAPTURE_HEIGHT,
    ensures
        bytes_or_text(r) == scaled_png(d@, width, height),
{
    let scaled = d.image.resize(width, height, image::imageops::FilterType::Lanczos3);
    let mut png: Vec<u8> = Vec::new();
    match scaled.write_to(&mut std::io::Cursor::new(&mut png), image::ImageFormat::Png) {
        Ok(()) => Ok(png),
        Err(e) => Err(e.to_string()),
    }
}

/// The character for a 6-bit value in the standard Base64 alphabet.
pub open spec fn base64_digit(v: int) -> char {
    if v < 26 {
        ((65 + v) as u8) as char
    } else if v < 52 {
        ((97 + v - 26) as u8) as char
    } else if v < 62 {
        ((48 + v - 52) as u8) as char
    } else if v == 62 {
        '+'
    } else {
        '/'
    }
}

/// Standard Base64 with `=` padding (RFC 4648, section 4).
pub open spec fn base64_standard(b: Seq<u8>) -> Seq<char>
    decreases b.len(),
{
    let b0: int = if b.len() > 0 { b[0] as int } else { 0 };
    let b1: int = if b.len() > 1 { b[1] as int } else { 0 };
    let b2: int = if b.len() > 2 { b[2] as int } else { 0 };
    if b.len() == 0 {
        Seq::<char>::empty()
    } else if b.len() == 1 {
        seq![base64_digit(b0 / 4), base64_digit((b0 % 4) * 16), '=', '=']
    } else if b.len() == 2 {
        seq![
            base64_digit(b0 / 4),
            base64_digit((b0 % 4) * 16 + b1 / 16),
            base64_digit((b1 % 16) * 4),
            '=',
        ]
    } else {
        seq![
            base64_digit(b0 / 4),
            base64_digit((b0 % 4) * 16 + b1 / 16),
            base64_digit((b1 % 16) * 4 + b2 / 64),
            base64_digit(b2 % 64),
        ] + base64_standard(b.skip(3))
    }
}

/// `base64::engine::general_purpose::STANDARD.encode`: standard Base64 with padding,
/// as RFC 4648 defines it. The length bound keeps the output size within `usize`.
#[verifier::external_body]
pub fn base64_encode(bytes: &[u8]) -> (r: String)
    requires
        bytes@.len() <= usize::MAX / 2,
    ensures
        r@ == base64_standard(bytes@),
{
    base64::Engine::encode(&base64::engine::general_purpose::STANDARD, bytes)
}

/// The brightness of pixel `i`: the integer mean of its three channels.
pub open spec fn pixel_brightness(px: Seq<u8>, i: int) -> int {
    (px[3 * i] + px[3 * i + 1] + px[3 * i + 2]) / 3
}

/// The summed brightness of the first `n` pixels.
pub open spec fn brightness_sum(px: Seq<u8>, n: int) -> int
    decreases n,
{
    if n <= 0 {
        0
    } else {
        brightness_sum(px, n - 1) + pixel_brightness(px, n - 1)
    }
}

/// An image whose pixels (red, green, blue bytes) are almost all black: no pixels, or
/// a mean brightness below 2.
pub open spec fn mostly_black(px: Seq<u8>) -> bool {
    let n = px.len() / 3;
    n == 0 || brightness_sum(px, n as int) < 2 * n
}

proof fn lemma_brightness_bounded(px: Seq<u8>, n: int)
    requires
        0 <= n,
        3 * n <= px.len(),
    ensures
        0 <= brightness_sum(px, n) <= 255 * n,
    decreases n,
{
    if n > 0 {
        lemma_brightness_bounded(px, n - 1);
    }
}

/// Whether red, green, blue pixel bytes show an almost black image (mean brightness
/// below 2, or no pixels at all).
pub fn mostly_black_rgb(px: &[u8]) -> (r: bool)
    ensures
        r == mostly_black(px@),
{
    let len: usize = px.len();
    let n: usize = len / 3;
    if n == 0 {
        return true;
    }
    let mut sum: u128 = 0;
    let mut i: usize = 0;
    while i < n
        invariant
            i <= n,
            n == px@.len() / 3,
            len == px@.len(),
            sum == brightness_sum(px@, i as int),
        decreases n - i,
    {
        proof {
            lemma_brightness_bounded(px@, i as int);
            let len = px@.len() as int;
            let k = i as int;
            assert(3 * k + 2 < len) by (nonlinear_arith)
                requires
                    0 <= k < len / 3,
                    len >= 0,
            ;
        }
        assert(3 * i + 2 < px@.len());
        let b: u128 = ((px[3 * i] as u128) + (px[3 * i + 1] as u128) + (px[3 * i + 2] as u128)) / 3;
        sum = sum + b;
        i = i + 1;
    }
    sum < 2 * (n as u128)
}

/// A screenshot file that shows an almost black image; a file that does not decode
/// counts as black.
pub open spec fn mostly_black_png(png: Seq<u8>) -> bool {
    !image_decodes(png) || mostly_black(decoded_rgb8(png))
}

/// Whether a screenshot file shows an almost black image (mean brightness of its
/// pixels below 2); a file that does not decode counts as black.
pub fn png_is_mostly_black(png: &[u8]) -> (r: bool)
    ensures
        r == mostly_black_png(png@),
{
    match load_image(png) {
        Err(_) => true,
        Ok(d) => mostly_black_rgb(d.rgb_bytes()),
    }
}

/// A screenshot ready to hand on: the PNG scaled to fit 960×540, and its Base64 text.
pub struct ProcessedCapture {
    pub png: Vec<u8>,
    pub base64: String,
}

/// The text of the error for a re-encoded screenshot too large to hold its Base64 text.
pub open spec fn too_large_text() -> Seq<char> {
    "encoded screenshot too large"@
}

/// What processing the screenshot file `png` gives: the error text when it does not
/// decode or its scaled PNG cannot be written; else the PNG scaled to fit 960×540 and
/// the standard Base64 of that PNG.
pub open spec fn processed_capture(png: Seq<u8>) -> Result<(Seq<u8>, Seq<char>), Seq<char>> {
    if !image_decodes(png) {
        Err(decode_error_text(png))
    } else {
        match scaled_png(png, CAPTURE_WIDTH, CAPTURE_HEIGHT) {
            Err(t) => Err(t),
            Ok(out) => if out.len() <= usize::MAX / 2 {
                Ok((out, base64_standard(out)))
            } else {
                Err(too_large_text())
            },
        }
    }
}

/// A processed screenshot, or an error text, as plain values.
pub open spec fn capture_view(r: Result<ProcessedCapture, String>) -> Result<(Seq<u8>, Seq<char>), Seq<char>> {
    match r {
        Ok(c) => Ok((c.png@, c.base64@)),
        Err(e) => Err(e@),
    }
}

/// Scales a screenshot to fit 960×540 and encodes it as PNG and as Base64; the error
/// is the `image` crate's message when the file does not decode or the PNG cannot be
/// written. (A byte vector never holds more than `isize::MAX` bytes, so the size
/// check before Base64 only guards the arithmetic of the encoder.)
pub fn process_png_bytes(png: &[u8]) -> (r: Result<ProcessedCapture, String>)
    ensures
        capture_view(r) == processed_capture(png@),
{
    let d = match load_image(png) {
        Ok(d) => d,
        Err(e) => return Err(e),
    };
    let out = match scale_to_png(&d, CAPTURE_WIDTH, CAPTURE_HEIGHT) {
        Ok(out) => out,
        Err(e) => return Err(e),
    };
    if out.len() > usize::MAX / 2 {
        return Err("encoded screenshot too large".to_string());
    }
    let text = base64_encode(out.as_slice());
    Ok(ProcessedCapture { png: out, base64: text })
}

/// A Linux screenshot, if usable: `None` when the file is under `MIN_CAPTURE_BYTES`
/// bytes or almost black (or does not decode), else the result of processing it.
pub fn linux_finish_png(bytes: &[u8]) -> (r: Option<Result<ProcessedCapture, String>>)
    ensures
        r is None <==> (bytes@.len() < MIN_CAPTURE_BYTES || mostly_black_png(bytes@)),
        r matches Some(x) ==> capture_view(x) == processed_capture(bytes@),
{
    if bytes.len() < MIN_CAPTURE_BYTES || png_is_mostly_black(bytes) {
        return None;
    }
    Some(process_png_bytes(bytes))
}

} // verus!
