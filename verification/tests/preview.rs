use base64::engine::general_purpose::STANDARD;
use base64::Engine;
use goldline::preview::{png, Pixels, PREVIEW_LIMIT};

fn decode(uri: &str) -> image::RgbaImage {
    let bytes = STANDARD
        .decode(uri.strip_prefix("data:image/png;base64,").unwrap())
        .unwrap();
    image::load_from_memory(&bytes).unwrap().to_rgba8()
}

fn pattern(width: u32, height: u32) -> Vec<u8> {
    let mut data = Vec::new();
    for y in 0..height {
        for x in 0..width {
            data.extend_from_slice(&[(x % 256) as u8, (y % 256) as u8, 157, if x % 3 == 0 { 0 } else { 255 }]);
        }
    }
    data
}

#[test]
fn small_images_are_encoded_losslessly() {
    let data = pattern(80, 60);
    let image = Pixels::from_rgba(80, 60, data.clone()).unwrap();
    let uri = png(&image).unwrap();
    assert!(uri.starts_with("data:image/png;base64,"));
    let decoded = decode(&uri);
    assert_eq!(decoded.dimensions(), (80, 60));
    assert!(decoded.as_raw() == &data);
}

#[test]
fn large_images_are_thumbnailed() {
    let image = Pixels::from_rgba(800, 800, pattern(800, 800)).unwrap();
    let decoded = decode(&png(&image).unwrap());
    assert_eq!(decoded.dimensions(), (PREVIEW_LIMIT, PREVIEW_LIMIT));
    let wide = Pixels::from_rgba(1000, 100, pattern(1000, 100)).unwrap();
    let decoded = decode(&png(&wide).unwrap());
    assert!(decoded.width() <= 384 && decoded.height() <= 384);
    assert_eq!(decoded.width(), 384);
}

#[test]
fn tall_images_keep_their_longer_side_at_the_limit() {
    let tall = Pixels::from_rgba(100, 1000, pattern(100, 1000)).unwrap();
    let decoded = decode(&png(&tall).unwrap());
    assert_eq!(decoded.height(), PREVIEW_LIMIT);
    assert!(decoded.width() <= PREVIEW_LIMIT && decoded.width() >= 1);
    let line = Pixels::from_rgba(385, 1, pattern(385, 1)).unwrap();
    let decoded = decode(&png(&line).unwrap());
    assert_eq!(decoded.dimensions(), (PREVIEW_LIMIT, 1));
}

#[test]
fn limit_sized_images_are_kept() {
    let data = pattern(384, 10);
    let image = Pixels::from_rgba(384, 10, data.clone()).unwrap();
    let decoded = decode(&png(&image).unwrap());
    assert!(decoded.as_raw() == &data);
}

#[test]
fn empty_placeholder_is_one_transparent_pixel() {
    let image = Pixels::from_rgba(1, 1, vec![0; 4]).unwrap();
    let decoded = decode(&png(&image).unwrap());
    assert_eq!(decoded.dimensions(), (1, 1));
    assert_eq!(decoded.get_pixel(0, 0).0, [0, 0, 0, 0]);
}

#[test]
fn pixels_need_four_bytes_each() {
    assert!(Pixels::from_rgba(2, 2, vec![0; 15]).is_none());
    assert!(Pixels::from_rgba(2, 2, vec![0; 17]).is_none());
    let p = Pixels::from_rgba(2, 2, vec![7; 16]).unwrap();
    assert_eq!((p.width(), p.height()), (2, 2));
    assert_eq!(p.rgba().len(), 16);
    assert_eq!(p.into_rgba(), vec![7; 16]);
}

#[test]
fn zero_sized_images_fail_to_encode() {
    let image = Pixels::from_rgba(0, 0, vec![]).unwrap();
    assert!(png(&image).is_err());
}
