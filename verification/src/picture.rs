//! Decoded pictures.
//!
//! A picture is held as plain values: its size and its RGBA bytes, row by row.
//! The `image` crate does the decoding; this crate never interprets a pixel.

use vstd::prelude::*;
use image::ImageFormat;

verus! {

/// The encodings in which pictures reach this crate.
#[derive(Clone, Copy, Debug, PartialEq, Eq, Structural)]
pub enum Encoding {
    Jpeg,
    Png,
}

/// A decoded picture: `width` by `height` pixels of four bytes each (red,
/// green, blue, alpha), stored row by row in `pixels`.
#[derive(Clone, Debug, PartialEq, Eq)]
pub struct Picture {
    pub width: u32,
    pub height: u32,
    pub pixels: Vec<u8>,
}

impl Picture {
    /// The picture as plain values: its width, its height and its bytes.
    pub open spec fn plain(&self) -> (u32, u32, Seq<u8>) {
        (self.width, self.height, self.pixels@)
    }

    /// The bytes suffice for every pixel of the stated size.
    pub open spec fn covers(&self) -> bool {
        self.pixels@.len() >= 4 * self.width * self.height
    }

    /// Whether the bytes suffice for every pixel of the stated size.
    pub fn is_covered(&self) -> (covered: bool)
        ensures
            covered == self.covers(),
    {
        let width: u128 = self.width as u128;
        let height: u128 = self.height as u128;
        assert(width * height <= 0xffff_ffff * 0xffff_ffff) by (nonlinear_arith)
            requires
                0 <= width <= 0xffff_ffff,
                0 <= height <= 0xffff_ffff,
        ;
        let pixels: u128 = width * height;
        assert(4 * pixels == 4 * self.width * self.height) by (nonlinear_arith)
            requires
                pixels == self.width * self.height,
        ;
        self.pixels.len() as u128 >= 4 * pixels
    }
}

/// What the `image` crate makes of `bytes` read as `encoding`: the width,
/// the height and the RGBA bytes of the image, or nothing where the bytes do
/// not decode.
pub uninterp spec fn decoded(bytes: Seq<u8>, encoding: Encoding) -> Option<(u32, u32, Seq<u8>)>;

/// `picture` is what the decoder makes of `bytes` read as `encoding`.
pub open spec fn is_decoding(bytes: Seq<u8>, encoding: Encoding, picture: Option<Picture>) -> bool {
    match picture {
        Some(p) => decoded(bytes, encoding) == Some(p.plain()) && p.covers(),
        None => decoded(bytes, encoding) is None,
    }
}

/// Calls `image::load_from_memory_with_format` on `bytes`, with the format
/// that `encoding` stands for, then `image::DynamicImage::into_rgba8`, and
/// takes the resulting buffer apart into its size and its bytes.
///
/// Two things are taken on trust. The outcome depends on the bytes and the
/// format alone, so it has a name, [`decoded`]. And the buffer keeps its own
/// invariant: it holds at least four bytes for each pixel.
#[verifier::external_body]
fn load_rgba(bytes: &[u8], encoding: Encoding) -> (picture: Option<Picture>)
    ensures
        match picture {
            Some(p) => decoded(bytes@, encoding) == Some((p.width, p.height, p.pixels@))
                && p.covers(),
            None => decoded(bytes@, encoding) is None,
        },
{
    let format = match encoding {
        Encoding::Jpeg => ImageFormat::Jpeg,
        Encoding::Png => ImageFormat::Png,
    };
    match image::load_from_memory_with_format(bytes, format) {
        Ok(loaded) => {
            let rgba = loaded.into_rgba8();
            Some(Picture { width: rgba.width(), height: rgba.height(), pixels: rgba.into_raw() })
        },
        Err(_) => None,
    }
}

/// Decodes `bytes`, which are held to be in `encoding`: the picture that the
/// decoder makes of them, or nothing where it makes none.
pub fn decode(bytes: &[u8], encoding: Encoding) -> (picture: Option<Picture>)
    ensures
        is_decoding(bytes@, encoding, picture),
{
    load_rgba(bytes, encoding)
}

} // verus!
