use flowsight_agent::capture::{capture_outcome, CaptureOutcome};
use flowsight_agent::image_codec::{base64_encode, linux_finish_png, mostly_black_rgb, png_is_mostly_black, process_png_bytes};

fn png_of(width: u32, height: u32, value: u8) -> Vec<u8> {
    let img = image::RgbImage::from_pixel(width, height, image::Rgb([value, value, value]));
    let mut out = Vec::new();
    image::DynamicImage::ImageRgb8(img)
        .write_to(&mut std::io::Cursor::new(&mut out), image::ImageFormat::Png)
        .unwrap();
    out
}

#[test]
fn base64_vectors() {
    assert_eq!(base64_encode(b""), "");
    assert_eq!(base64_encode(b"f"), "Zg==");
    assert_eq!(base64_encode(b"fo"), "Zm8=");
    assert_eq!(base64_encode(b"foo"), "Zm9v");
    assert_eq!(base64_encode(b"foobar"), "Zm9vYmFy");
    assert_eq!(base64_encode(&[0xfb, 0xff]), "+/8=");
}

#[test]
fn black_threshold() {
    assert!(mostly_black_rgb(&[]));
    // Mean brightness 1: black.
    assert!(mostly_black_rgb(&[1, 1, 1, 1, 1, 1]));
    // Brightness 0 and 4: mean 2, not black.
    assert!(!mostly_black_rgb(&[0, 0, 0, 4, 4, 4]));
    // Integer mean per pixel: (2 + 2 + 1) / 3 == 1.
    assert!(mostly_black_rgb(&[2, 2, 1]));
}

#[test]
fn black_and_white_png() {
    assert!(png_is_mostly_black(&png_of(64, 64, 0)));
    assert!(!png_is_mostly_black(&png_of(64, 64, 255)));
    assert!(png_is_mostly_black(b"not an image"));
}

#[test]
fn processing_scales_and_encodes() {
    let c = process_png_bytes(&png_of(1920, 1080, 200)).unwrap();
    let img = image::load_from_memory(&c.png).unwrap();
    assert_eq!((img.width(), img.height()), (960, 540));
    assert_eq!(c.base64, base64_encode(&c.png));
    assert!(process_png_bytes(b"garbage").is_err());
}

fn noisy_png(width: u32, height: u32) -> Vec<u8> {
    let mut img = image::RgbImage::new(width, height);
    for (x, y, p) in img.enumerate_pixels_mut() {
        let v = ((x * 7 + y * 13) % 251) as u8;
        *p = image::Rgb([v, 255 - v, v / 2 + 60]);
    }
    let mut out = Vec::new();
    image::DynamicImage::ImageRgb8(img)
        .write_to(&mut std::io::Cursor::new(&mut out), image::ImageFormat::Png)
        .unwrap();
    out
}

#[test]
fn processing_keeps_aspect_ratio() {
    let c = process_png_bytes(&png_of(1000, 1000, 120)).unwrap();
    let img = image::load_from_memory(&c.png).unwrap();
    assert_eq!((img.width(), img.height()), (540, 540));
    let c = process_png_bytes(&png_of(480, 270, 120)).unwrap();
    let img = image::load_from_memory(&c.png).unwrap();
    assert_eq!((img.width(), img.height()), (960, 540));
}

#[test]
fn processing_error_is_the_decoder_message() {
    let e = process_png_bytes(b"garbage").err().unwrap();
    assert_eq!(e, image::load_from_memory(b"garbage").unwrap_err().to_string());
    assert!(!e.is_empty());
}

#[test]
fn outcome_of_each_capture() {
    let (o, c) = capture_outcome(None);
    assert_eq!(o, CaptureOutcome::NoImage);
    assert!(c.is_none());
    let (o, c) = capture_outcome(Some(png_of(800, 600, 0)));
    assert_eq!(o, CaptureOutcome::BlackFrame);
    assert!(c.is_none());
    let (o, c) = capture_outcome(Some(b"not an image".to_vec()));
    assert_eq!(o, CaptureOutcome::BlackFrame);
    assert!(c.is_none());
    let small = png_of(2, 2, 255);
    assert!(small.len() < 500);
    let (o, c) = capture_outcome(Some(small));
    assert_eq!(o, CaptureOutcome::Unusable);
    assert!(c.is_none());
    let bright = noisy_png(200, 200);
    let expected = process_png_bytes(&bright).unwrap();
    let (o, c) = capture_outcome(Some(bright));
    assert_eq!(o, CaptureOutcome::Captured);
    let c = c.unwrap();
    assert_eq!(c.png, expected.png);
    assert_eq!(c.base64, expected.base64);
}

#[test]
fn finish_rejects_small_and_black() {
    assert!(linux_finish_png(&[0u8; 100]).is_none());
    let black = png_of(800, 600, 0);
    assert!(black.len() >= 500 || linux_finish_png(&black).is_none());
    assert!(linux_finish_png(&black).is_none());
    let bright = {
        // Noise keeps the file above the size floor.
        let mut img = image::RgbImage::new(200, 200);
        for (x, y, p) in img.enumerate_pixels_mut() {
            let v = ((x * 7 + y * 13) % 251) as u8;
            *p = image::Rgb([v, 255 - v, v / 2 + 60]);
        }
        let mut out = Vec::new();
        image::DynamicImage::ImageRgb8(img)
            .write_to(&mut std::io::Cursor::new(&mut out), image::ImageFormat::Png)
            .unwrap();
        out
    };
    assert!(bright.len() >= 500);
    let r = linux_finish_png(&bright).unwrap().unwrap();
    assert_eq!(r.base64, base64_encode(&r.png));
}
