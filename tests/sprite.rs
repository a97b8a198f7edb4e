use image::{ImageFormat, Rgb, RgbImage};
use rust_canvas::{Sprite, WebError};
use std::io::Cursor;

fn png_bytes(image: &RgbImage) -> Vec<u8> {
    let mut out = Cursor::new(Vec::new());
    image.write_to(&mut out, ImageFormat::Png).unwrap();
    out.into_inner()
}

#[test]
fn from_rgb_accepts_matching_buffer() {
    let s = Sprite::from_rgb(2, 1, vec![1, 2, 3, 4, 5, 6]).unwrap();
    assert_eq!(s.width(), 2);
    assert_eq!(s.height(), 1);
    assert_eq!(s.pixels(), &[1, 2, 3, 4, 5, 6]);
}

#[test]
fn from_rgb_rejects_wrong_length() {
    assert!(Sprite::from_rgb(2, 1, vec![1, 2, 3, 4, 5]).is_none());
    assert!(Sprite::from_rgb(2, 2, vec![0; 6]).is_none());
}

#[test]
fn from_rgb_accepts_empty_raster() {
    let s = Sprite::from_rgb(0, 0, Vec::new()).unwrap();
    assert_eq!((s.width(), s.height()), (0, 0));
}

#[test]
fn from_rgb_rejects_oversized_side() {
    assert!(Sprite::from_rgb(0x4000_0000, 0, Vec::new()).is_none());
    assert!(Sprite::from_rgb(0, 0x4000_0000, Vec::new()).is_none());
    assert!(Sprite::from_rgb(0x3fff_ffff, 0, Vec::new()).is_some());
}

#[test]
fn decode_reads_png_pixels() {
    let mut image = RgbImage::new(2, 2);
    image.put_pixel(0, 0, Rgb([255, 0, 0]));
    image.put_pixel(1, 0, Rgb([0, 255, 0]));
    image.put_pixel(0, 1, Rgb([0, 0, 255]));
    image.put_pixel(1, 1, Rgb([10, 20, 30]));
    let s = Sprite::decode(&png_bytes(&image)).unwrap();
    assert_eq!((s.width(), s.height()), (2, 2));
    assert_eq!(s.pixels(), &[255, 0, 0, 0, 255, 0, 0, 0, 255, 10, 20, 30]);
}

#[test]
fn decode_rejects_garbage() {
    assert!(matches!(Sprite::decode(b"not an image"), Err(WebError::DecodeImage(_))));
    assert!(matches!(Sprite::decode(&[]), Err(WebError::DecodeImage(_))));
}

#[test]
fn decode_rejects_other_formats() {
    let bmp = b"BM\x1e\x00\x00\x00\x00\x00\x00\x00\x1a\x00\x00\x00";
    assert!(matches!(Sprite::decode(bmp), Err(WebError::DecodeImage(_))));
}
