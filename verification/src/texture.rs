//! Resource store, texture half: one-time upload of a 2D RGBA image.
//!
//! Decoding an encoded image is delegated to the `image` crate; everything
//! after the decode — the tight-packing admission rule, the transfer layout,
//! and the binding-set shape — is verified here.

use vstd::prelude::*;

verus! {

/// Texel filtering used by the sampler.
#[derive(Clone, Copy, PartialEq, Eq, Structural, Debug)]
pub enum FilterMode {
    Nearest,
    Linear,
}

/// How the sampler treats coordinates outside the texture.
#[derive(Clone, Copy, PartialEq, Eq, Structural, Debug)]
pub enum AddressMode {
    ClampToEdge,
    Repeat,
}

/// The sampler this engine pairs with its texture: bilinear magnification,
/// nearest minification, clamped addressing.
#[derive(Clone, Copy, PartialEq, Eq, Structural, Debug)]
pub struct SamplerSpec {
    pub mag_filter: FilterMode,
    pub min_filter: FilterMode,
    pub address_mode: AddressMode,
}

/// The binding set exposing the texture to the fragment stage: the view and
/// the sampler sit at fixed indices of one binding group.
#[derive(Clone, Copy, PartialEq, Eq, Structural, Debug)]
pub struct BindingSpec {
    pub group: u32,
    pub texture_binding: u32,
    pub sampler_binding: u32,
}

/// Why a texture upload was rejected.
#[derive(Clone, Copy, PartialEq, Eq, Structural, Debug)]
pub enum TextureError {
    /// The pixel byte length is not exactly `width * height * 4`.
    PixelLengthMismatch,
    /// The encoded bytes do not decode as an image.
    UndecodableImage,
}

/// The device-resident texture as the engine tracks it: the exact pixel
/// bytes copied in one transfer, with the transfer's row layout and the
/// binding set built for it.
#[derive(Clone, PartialEq, Eq, Debug)]
pub struct TexturePlan {
    pub width: u32,
    pub height: u32,
    pub pixels: Vec<u8>,
    pub bytes_per_row: u64,
    pub rows_per_image: u32,
    pub sampler: SamplerSpec,
    pub binding: BindingSpec,
}

impl TexturePlan {
    pub open spec fn wf(self) -> bool {
        &&& self.pixels@.len() == self.width * self.height * 4
        &&& self.bytes_per_row == self.width * 4
        &&& self.rows_per_image == self.height
        &&& self.binding == (BindingSpec { group: 0, texture_binding: 0, sampler_binding: 1 })
    }
}

/// The sampler configuration every texture of this engine uses.
pub open spec fn spec_engine_sampler() -> SamplerSpec {
    SamplerSpec {
        mag_filter: FilterMode::Linear,
        min_filter: FilterMode::Nearest,
        address_mode: AddressMode::ClampToEdge,
    }
}

/// Admit raw RGBA8 pixels for upload as a `width` by `height` texture.
///
/// The buffer must be tightly packed — exactly `width * height * 4` bytes,
/// four bytes per pixel, rows of `width * 4` bytes — and any other length is
/// rejected before a transfer is attempted. On success the plan carries the
/// given bytes unchanged, the single transfer's row layout, the engine's
/// sampler, and the fragment-stage binding set at indices 0 and 1 of group 0.
pub fn upload_texture(pixels: Vec<u8>, width: u32, height: u32) -> (r: Result<
    TexturePlan,
    TextureError,
>)
    ensures
        r is Ok <==> pixels@.len() == width * height * 4,
        r matches Ok(t) ==> {
            &&& t.width == width
            &&& t.height == height
            &&& t.pixels == pixels
            &&& t.bytes_per_row == width * 4
            &&& t.rows_per_image == height
            &&& t.sampler == spec_engine_sampler()
            &&& t.binding == (BindingSpec { group: 0, texture_binding: 0, sampler_binding: 1 })
            &&& t.wf()
        },
        r matches Err(e) ==> e == TextureError::PixelLengthMismatch,
{
    proof {
        vstd::arithmetic::mul::lemma_mul_upper_bound(
            width as int,
            u32::MAX as int,
            height as int,
            u32::MAX as int,
        );
    }
    let expected: u128 = (width as u128) * (height as u128) * 4;
    let actual: u128 = pixels.len() as u128;
    if actual != expected {
        return Err(TextureError::PixelLengthMismatch);
    }
    Ok(TexturePlan {
        width,
        height,
        pixels,
        bytes_per_row: (width as u64) * 4,
        rows_per_image: height,
        sampler: SamplerSpec {
            mag_filter: FilterMode::Linear,
            min_filter: FilterMode::Nearest,
            address_mode: AddressMode::ClampToEdge,
        },
        binding: BindingSpec { group: 0, texture_binding: 0, sampler_binding: 1 },
    })
}

/// An image decoded to raw RGBA8 pixels.
#[derive(Clone, PartialEq, Eq, Debug)]
pub struct DecodedImage {
    pub width: u32,
    pub height: u32,
    pub pixels: Vec<u8>,
}

/// What decoding a byte string to RGBA8 yields: dimensions and pixel bytes
/// for a well-formed encoded image, nothing otherwise. Decoding is a pure
/// function of the bytes, so the result carries a name rather than a
/// definition.
pub uninterp spec fn decoded_rgba(encoded: Seq<u8>) -> Option<(u32, u32, Seq<u8>)>;

/// Relies on `image::load_from_memory` and `image::DynamicImage::to_rgba8`:
/// decoding depends on the encoded bytes alone, and the RGBA8 buffer of a
/// `width` by `height` image holds exactly `width * height * 4` bytes.
#[verifier::external_body]
fn decode_rgba(encoded: &Vec<u8>) -> (r: Option<DecodedImage>)
    ensures
        match r {
            Some(d) => decoded_rgba(encoded@) == Some((d.width, d.height, d.pixels@))
                && d.pixels@.len() == d.width * d.height * 4,
            None => decoded_rgba(encoded@) is None,
        },
{
    match image::load_from_memory(encoded) {
        Ok(img) => {
            let rgba = img.to_rgba8();
            let (width, height) = rgba.dimensions();
            Some(DecodedImage { width, height, pixels: rgba.into_raw() })
        },
        Err(_) => None,
    }
}

/// Decode an encoded image and admit it for upload.
///
/// Fails with `UndecodableImage` exactly when the bytes do not decode; a
/// decoded image is always tightly packed, so the upload itself cannot be
/// rejected.
pub fn texture_from_encoded(encoded: &Vec<u8>) -> (r: Result<TexturePlan, TextureError>)
    ensures
        r is Ok <==> decoded_rgba(encoded@) is Some,
        r matches Ok(t) ==> {
            &&& decoded_rgba(encoded@) matches Some((w, h, px)) && t.width == w && t.height == h
                && t.pixels@ == px
            &&& t.bytes_per_row == t.width * 4
            &&& t.rows_per_image == t.height
            &&& t.sampler == spec_engine_sampler()
            &&& t.wf()
        },
        r matches Err(e) ==> e == TextureError::UndecodableImage,
{
    match decode_rgba(encoded) {
        Some(d) => {
            let width = d.width;
            let height = d.height;
            match upload_texture(d.pixels, width, height) {
                Ok(t) => Ok(t),
                Err(_) => {
                    proof {
                        assert(false);
                    }
                    Err(TextureError::UndecodableImage)
                },
            }
        },
        None => Err(TextureError::UndecodableImage),
    }
}

} // verus!
