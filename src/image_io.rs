use vstd::prelude::*;

verus! {

/// Grayscale samples of an image, one byte per pixel, row by row.
pub struct GrayscaleImage {
    pub width: u32,
    pub height: u32,
    pub samples: Vec<u8>,
}

impl GrayscaleImage {
    /// One sample for each pixel.
    pub open spec fn wf(&self) -> bool {
        self.samples@.len() == self.width as int * self.height as int
    }
}

/// The width and height of the image that JPEG-encoded bytes decode to, or
/// `None` when they do not decode.
pub uninterp spec fn jpeg_dims(encoded: Seq<u8>) -> Option<(u32, u32)>;

/// Relies on image::load_from_memory_with_format (JPEG) to decode, then on
/// image::DynamicImage::grayscale, taken as 8-bit luma, for the intensity;
/// the grayscale image keeps the decoded size, and its sample buffer holds at
/// least one byte per pixel.
#[verifier::external_body]
pub(crate) fn decode_grayscale(encoded: &[u8]) -> (r: Option<GrayscaleImage>)
    ensures
        match jpeg_dims(encoded@) {
            None => r is None,
            Some((w, h)) => {
                &&& r is Some
                &&& r->0.width == w
                &&& r->0.height == h
                &&& r->0.samples@.len() >= w as int * h as int
            },
        },
{
    match image::load_from_memory_with_format(encoded, image::ImageFormat::Jpeg) {
        Ok(img) => {
            let gray = img.grayscale().to_luma8();
            Some(GrayscaleImage { width: gray.width(), height: gray.height(), samples: gray.into_raw() })
        },
        Err(_) => None,
    }
}

} // verus!
