use vstd::prelude::*;

use crate::error::{AmbientCGErrorType, AmbientCGImportError};
use crate::image_io::{decode_grayscale, jpeg_dims, GrayscaleImage};
use crate::naming::ChannelPaths;

verus! {

/// Which of a set's six channel files are present.
#[derive(Clone, Copy, Debug, PartialEq, Eq, Structural)]
pub struct ChannelPresence {
    pub occlusion: bool,
    pub base_color: bool,
    pub displacement: bool,
    pub metalness: bool,
    pub normal: bool,
    pub roughness: bool,
}

/// Where a material slot gets its texture from.
#[derive(Debug, PartialEq, Eq)]
pub enum TextureSource {
    /// No texture.
    Absent,
    /// The file at this path, loaded as it is.
    Stored(String),
    /// A map synthesized from the roughness and metalness files.
    Combined { roughness: String, metalness: String },
}

/// The texture sources of a material's slots.
#[derive(Debug, PartialEq, Eq)]
pub struct MaterialTextures {
    pub occlusion: TextureSource,
    pub base_color: TextureSource,
    pub thickness: TextureSource,
    pub normal_map: TextureSource,
    pub metallic_roughness: TextureSource,
}

/// A channel file that is used as it is when present.
pub open spec fn pass_through(path: String, present: bool) -> TextureSource {
    if present {
        TextureSource::Stored(path)
    } else {
        TextureSource::Absent
    }
}

/// The source of the metallic/roughness slot for the given presence of the
/// metalness and roughness files.
pub open spec fn packed_source(
    metalness: String,
    metalness_present: bool,
    roughness: String,
    roughness_present: bool,
) -> TextureSource {
    if metalness_present && roughness_present {
        TextureSource::Combined { roughness, metalness }
    } else if metalness_present {
        TextureSource::Stored(metalness)
    } else if roughness_present {
        TextureSource::Stored(roughness)
    } else {
        TextureSource::Absent
    }
}

fn pass_through_exec(path: String, present: bool) -> (r: TextureSource)
    ensures
        r == pass_through(path, present),
{
    if present {
        TextureSource::Stored(path)
    } else {
        TextureSource::Absent
    }
}

/// Chooses each slot's texture source from the channel files present.
/// Roughness and metalness are packed into one synthesized map when both are
/// present; otherwise whichever of them is present is used alone.
pub fn plan_textures(paths: ChannelPaths, presence: &ChannelPresence) -> (r: MaterialTextures)
    ensures
        r.occlusion == pass_through(paths.occlusion, presence.occlusion),
        r.base_color == pass_through(paths.base_color, presence.base_color),
        r.thickness == pass_through(paths.displacement, presence.displacement),
        r.normal_map == pass_through(paths.normal, presence.normal),
        r.metallic_roughness == packed_source(
            paths.metalness,
            presence.metalness,
            paths.roughness,
            presence.roughness,
        ),
        presence.metalness && presence.roughness ==> r.metallic_roughness == (TextureSource::Combined {
            roughness: paths.roughness,
            metalness: paths.metalness,
        }),
        presence.metalness && !presence.roughness ==> r.metallic_roughness == TextureSource::Stored(
            paths.metalness,
        ),
        !presence.metalness && presence.roughness ==> r.metallic_roughness == TextureSource::Stored(
            paths.roughness,
        ),
        !presence.metalness && !presence.roughness ==> r.metallic_roughness == TextureSource::Absent,
{
    let metallic_roughness = if presence.metalness && presence.roughness {
        TextureSource::Combined { roughness: paths.roughness, metalness: paths.metalness }
    } else if presence.metalness {
        TextureSource::Stored(paths.metalness)
    } else if presence.roughness {
        TextureSource::Stored(paths.roughness)
    } else {
        TextureSource::Absent
    };
    MaterialTextures {
        occlusion: pass_through_exec(paths.occlusion, presence.occlusion),
        base_color: pass_through_exec(paths.base_color, presence.base_color),
        thickness: pass_through_exec(paths.displacement, presence.displacement),
        normal_map: pass_through_exec(paths.normal, presence.normal),
        metallic_roughness,
    }
}

/// Decodes a JPEG-encoded channel file into its grayscale samples; fails
/// exactly when the bytes do not decode.
pub fn load_grayscale_image(encoded: &[u8]) -> (r: Result<GrayscaleImage, AmbientCGImportError>)
    ensures
        match jpeg_dims(encoded@) {
            None => r == Err::<GrayscaleImage, AmbientCGImportError>(
                AmbientCGImportError(AmbientCGErrorType::DecodeFailure),
            ),
            Some((w, h)) => {
                &&& r is Ok
                &&& r->Ok_0.wf()
                &&& r->Ok_0.width == w
                &&& r->Ok_0.height == h
            },
        },
{
    match decode_grayscale(encoded) {
        None => Err(AmbientCGImportError(AmbientCGErrorType::DecodeFailure)),
        Some(gray) => {
            let mut gray = gray;
            let w = gray.width as usize;
            let h = gray.height as usize;
            let len = gray.samples.len();
            assert(w as int * h as int == gray.width as int * gray.height as int);
            assert(w as int * h as int <= len);
            let n = w * h;
            gray.samples.truncate(n);
            Ok(gray)
        },
    }
}

/// An image of three samples per pixel, row by row.
pub struct CombinedImage {
    pub width: u32,
    pub height: u32,
    pub pixels: Vec<[u8; 3]>,
}

/// The pixel at index `i` of the combined map: zero, then roughness, then metalness.
pub open spec fn combined_pixel(roughness: GrayscaleImage, metallic: GrayscaleImage, i: int) -> Seq<u8> {
    seq![0u8, roughness.samples@[i], metallic.samples@[i]]
}

/// The grayscale sample at column `x` of row `y`.
pub open spec fn sample_at(img: GrayscaleImage, x: int, y: int) -> u8 {
    img.samples@[y * img.width + x]
}

/// The three samples of the pixel at column `x` of row `y`.
pub open spec fn pixel_at(img: CombinedImage, x: int, y: int) -> Seq<u8> {
    img.pixels@[y * img.width + x]@
}

proof fn lemma_pixel_index_in_bounds(w: int, h: int, x: int, y: int)
    requires
        0 <= x < w,
        0 <= y < h,
    ensures
        0 <= y * w + x < w * h,
{
    assert(0 <= y * w) by (nonlinear_arith)
        requires
            0 <= y,
            0 <= w,
    ;
    assert(y * w + x < w * h) by (nonlinear_arith)
        requires
            0 <= x < w,
            0 <= y < h,
    ;
}

/// Packs roughness into the second and metalness into the third sample of each
/// pixel, the first being zero. Fails, producing nothing, when the two images
/// differ in width or height.
pub fn create_roughness_metallic_image(
    roughness: &GrayscaleImage,
    metallic: &GrayscaleImage,
) -> (r: Result<CombinedImage, AmbientCGImportError>)
    requires
        roughness.wf(),
        metallic.wf(),
    ensures
        (roughness.width != metallic.width || roughness.height != metallic.height) ==> r == Err::<
            CombinedImage,
            AmbientCGImportError,
        >(AmbientCGImportError(AmbientCGErrorType::DimensionMismatch)),
        (roughness.width == metallic.width && roughness.height == metallic.height) ==> r is Ok,
        r is Ok ==> ({
            let img = r->Ok_0;
            &&& img.width == roughness.width
            &&& img.height == roughness.height
            &&& img.pixels@.len() == roughness.samples@.len()
            &&& forall|i: int|
                0 <= i < img.pixels@.len() ==> #[trigger] img.pixels@[i]@ == combined_pixel(
                    *roughness,
                    *metallic,
                    i,
                )
            &&& forall|x: int, y: int|
                0 <= x < img.width && 0 <= y < img.height ==> #[trigger] pixel_at(img, x, y) == seq![
                    0u8,
                    sample_at(*roughness, x, y),
                    sample_at(*metallic, x, y),
                ]
        }),
{
    if roughness.width != metallic.width || roughness.height != metallic.height {
        return Err(AmbientCGImportError(AmbientCGErrorType::DimensionMismatch));
    }
    let n = roughness.samples.len();
    let mut pixels: Vec<[u8; 3]> = Vec::with_capacity(n);
    let mut i: usize = 0;
    while i < n
        invariant
            n == roughness.samples@.len(),
            n == metallic.samples@.len(),
            i <= n,
            pixels@.len() == i,
            forall|j: int| 0 <= j < i ==> #[trigger] pixels@[j]@ == combined_pixel(*roughness, *metallic, j),
        decreases n - i,
    {
        let px: [u8; 3] = [0u8, roughness.samples[i], metallic.samples[i]];
        assert(px@ =~= combined_pixel(*roughness, *metallic, i as int));
        pixels.push(px);
        i = i + 1;
    }
    let out = CombinedImage { width: roughness.width, height: roughness.height, pixels };
    assert forall|x: int, y: int|
        0 <= x < out.width && 0 <= y < out.height implies #[trigger] pixel_at(out, x, y) == seq![
            0u8,
            sample_at(*roughness, x, y),
            sample_at(*metallic, x, y),
        ] by {
        lemma_pixel_index_in_bounds(out.width as int, out.height as int, x, y);
        assert(out.pixels@[y * out.width + x]@ == combined_pixel(*roughness, *metallic, y * out.width + x));
    }
    Ok(out)
}

} // verus!
