//! The one raster that is drawn: its size and its pixels, three bytes (red,
//! green, blue) per pixel, row by row from the top.

use vstd::prelude::*;
use image::ImageError;

use crate::error::WebError;

verus! {

#[verifier::external_type_specification]
#[verifier::external_body]
pub struct ExImageError(ImageError);

/// The largest width or height a sprite may have: twice it still fits the
/// host's 32-bit integers.
pub const MAX_SIDE: u32 = 0x3fff_ffff;

/// Whether a raster of this size with this many pixel bytes can be a sprite.
pub open spec fn valid_raster(width: nat, height: nat, len: nat) -> bool {
    &&& width <= MAX_SIDE
    &&& height <= MAX_SIDE
    &&& len == 3 * width * height
}

/// A raster of `width` by `height` pixels, decoded once and read-only after.
pub struct Sprite {
    width: u32,
    height: u32,
    pixels: Vec<u8>,
}

/// The width, height and 8-bit RGB pixel bytes of the image that the given
/// bytes decode to as a PNG file, or none when they are no PNG image the
/// decoder accepts.
pub uninterp spec fn png_rgb8_of(bytes: Seq<u8>) -> Option<(u32, u32, Seq<u8>)>;

/// Relies on `image::load_from_memory_with_format` with the built-in PNG
/// format, followed by `DynamicImage::to_rgb8`. With the format fixed the
/// reader consults no registered hooks, so the outcome depends on the bytes
/// alone. The RGB image is handed out as its width, its height and its raw
/// pixel bytes; a decoding failure as the decoder's error.
#[verifier::external_body]
fn decode_png_rgb8(bytes: &[u8]) -> (r: Result<(u32, u32, Vec<u8>), ImageError>)
    ensures
        r is Ok <==> png_rgb8_of(bytes@) is Some,
        r matches Ok((w, h, p)) ==> png_rgb8_of(bytes@) == Some((w, h, p@)),
{
    let rgb = image::load_from_memory_with_format(bytes, image::ImageFormat::Png)?.to_rgb8();
    let (width, height) = rgb.dimensions();
    Ok((width, height, rgb.into_raw()))
}

impl Sprite {
    #[verifier::type_invariant]
    spec fn well_formed(self) -> bool {
        valid_raster(self.width as nat, self.height as nat, self.pixels@.len())
    }

    pub closed spec fn spec_width(self) -> u32 {
        self.width
    }

    pub closed spec fn spec_height(self) -> u32 {
        self.height
    }

    pub closed spec fn spec_pixels(self) -> Seq<u8> {
        self.pixels@
    }

    /// A sprite of the given size and pixels, if they make a valid raster.
    pub fn from_rgb(width: u32, height: u32, pixels: Vec<u8>) -> (r: Option<Sprite>)
        ensures
            r is Some <==> valid_raster(width as nat, height as nat, pixels@.len()),
            r matches Some(s) ==> {
                &&& s.spec_width() == width
                &&& s.spec_height() == height
                &&& s.spec_pixels() == pixels@
            },
    {
        if width > MAX_SIDE || height > MAX_SIDE {
            return None;
        }
        proof {
            assert(width * height <= 0x3fff_ffff * 0x3fff_ffff) by (nonlinear_arith)
                requires
                    width <= 0x3fff_ffff,
                    height <= 0x3fff_ffff,
            ;
        }
        let area: u64 = width as u64 * height as u64;
        let needed: u128 = 3 * area as u128;
        assert(needed == 3 * width * height) by (nonlinear_arith)
            requires
                needed == 3 * area,
                area == width * height,
        ;
        if pixels.len() as u128 != needed {
            return None;
        }
        Some(Sprite { width, height, pixels })
    }

    /// Decodes a PNG file into a sprite.
    pub fn decode(bytes: &[u8]) -> (r: Result<Sprite, WebError>)
        ensures
            png_rgb8_of(bytes@) is None ==> r matches Err(WebError::DecodeImage(_)),
            png_rgb8_of(bytes@) matches Some((w, h, p)) ==> (r is Ok <==> valid_raster(
                w as nat,
                h as nat,
                p.len(),
            )),
            png_rgb8_of(bytes@) matches Some(_) ==> (r matches Err(e) ==> e is InvalidImage),
            r matches Ok(s) ==> png_rgb8_of(bytes@) == Some(
                (s.spec_width(), s.spec_height(), s.spec_pixels()),
            ),
    {
        match decode_png_rgb8(bytes) {
            Err(e) => Err(WebError::DecodeImage(e)),
            Ok((width, height, pixels)) => match Sprite::from_rgb(width, height, pixels) {
                Some(s) => Ok(s),
                None => Err(WebError::InvalidImage),
            },
        }
    }

    pub fn width(&self) -> (r: u32)
        ensures
            r == self.spec_width(),
            r <= MAX_SIDE,
    {
        proof {
            use_type_invariant(self);
        }
        self.width
    }

    pub fn height(&self) -> (r: u32)
        ensures
            r == self.spec_height(),
            r <= MAX_SIDE,
    {
        proof {
            use_type_invariant(self);
        }
        self.height
    }

    pub fn pixels(&self) -> (r: &[u8])
        ensures
            r@ == self.spec_pixels(),
            valid_raster(self.spec_width() as nat, self.spec_height() as nat, r@.len()),
    {
        proof {
            use_type_invariant(self);
        }
        self.pixels.as_slice()
    }
}

} // verus!
