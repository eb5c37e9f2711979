//! Decoding a texture raster into RGBA bytes for upload.
//!
//! The decode itself is the `image` crate's work and stands behind one
//! trusted wrapper. Its registries of format hooks are process-global and
//! writable at run time, so nothing ties the outcome to the bytes alone; the
//! wrapper promises only what holds of every outcome — a well-formed RGBA
//! buffer or a failure. A failed decode is recoverable: the caller keeps its
//! previously bound texture.

use vstd::prelude::*;

verus! {

/// Why a texture could not be produced.
#[derive(Clone, Copy, PartialEq, Eq, Structural, Debug)]
pub enum TextureError {
    /// The byte stream is not a raster the decoder can read.
    DecodeFailure,
}

/// An image ready for upload: interleaved RGBA bytes with explicit
/// dimensions.
#[derive(Clone)]
pub struct TextureImage {
    pub width: u32,
    pub height: u32,
    pub pixels: Vec<u8>,
}

impl TextureImage {
    /// Exactly one four-byte pixel per cell.
    pub open spec fn wf(self) -> bool {
        self.pixels@.len() == 4 * self.width * self.height
    }
}

/// Relies on `image::load_from_memory`, `image::DynamicImage::to_rgba8` and
/// `image::RgbaImage::into_raw`. Which decoder answers may depend on the
/// crate's run-time hook registries, not on the bytes alone, so nothing is
/// promised about which streams succeed; of every successful outcome the
/// buffer holds exactly `width * height` four-byte pixels, which is how the
/// crate builds and converts its buffers.
#[verifier::external_body]
fn decode_rgba(bytes: &Vec<u8>) -> (r: Option<TextureImage>)
    ensures
        r matches Some(img) ==> img.wf(),
{
    match image::load_from_memory(bytes) {
        Ok(img) => {
            let rgba = img.to_rgba8();
            let (width, height) = rgba.dimensions();
            Some(TextureImage { width, height, pixels: rgba.into_raw() })
        },
        Err(_) => None,
    }
}

/// Decode a texture byte stream into an RGBA image.
///
/// A stream the decoder reads yields its well-formed RGBA form; everything
/// else reports `DecodeFailure`, after which the caller keeps whatever
/// texture it had.
pub fn decode_texture(bytes: &Vec<u8>) -> (r: Result<TextureImage, TextureError>)
    ensures
        match r {
            Ok(img) => img.wf(),
            Err(e) => e == TextureError::DecodeFailure,
        },
{
    match decode_rgba(bytes) {
        Some(img) => Ok(img),
        None => Err(TextureError::DecodeFailure),
    }
}

} // verus!
