//! Validation rules for loaded assets.
//!
//! Files are read and decoded outside the library (an OBJ reader for meshes,
//! a PNG decoder for textures); the decisions about what is acceptable and
//! how it maps onto GL upload parameters live here. A mesh file must contain
//! at least one model, and a texture must be 8- or 16-bit RGB or RGBA —
//! anything else is rejected with an [`AssetError`].

use vstd::prelude::*;

verus! {

/// GL `RGB` pixel format.
pub const GL_RGB: u32 = 0x1907;

/// GL `RGBA` pixel format.
pub const GL_RGBA: u32 = 0x1908;

/// GL `UNSIGNED_BYTE` component type.
pub const GL_UNSIGNED_BYTE: u32 = 0x1401;

/// GL `UNSIGNED_SHORT` component type.
pub const GL_UNSIGNED_SHORT: u32 = 0x1403;

/// Colour layout a PNG decoder reported.
#[derive(Clone, Copy, PartialEq, Eq, Structural, Debug)]
pub enum PngColorSpace {
    /// Three channels.
    Rgb,
    /// Four channels.
    Rgba,
    /// Anything else (greyscale, palette, …).
    Other,
}

/// Bit depth a PNG decoder reported.
#[derive(Clone, Copy, PartialEq, Eq, Structural, Debug)]
pub enum PngBitDepth {
    /// Eight bits per channel.
    Eight,
    /// Sixteen bits per channel.
    Sixteen,
    /// Anything else.
    Other,
}

/// How to hand a decoded image to GL: its source format and component type.
#[derive(Clone, Copy, PartialEq, Eq, Structural, Debug)]
pub struct TextureFormat {
    /// GL source format (`GL_RGB` or `GL_RGBA`).
    pub source_format: u32,
    /// GL component type (`GL_UNSIGNED_BYTE` or `GL_UNSIGNED_SHORT`).
    pub source_type: u32,
}

/// Why an asset was rejected.
#[derive(Clone, Copy, PartialEq, Eq, Structural, Debug)]
pub enum AssetError {
    /// A mesh file contained no models.
    NoModels,
    /// A texture's colour space or bit depth is unsupported.
    UnsupportedPixelFormat,
}

impl AssetError {
    /// Human-readable description.
    pub fn message(&self) -> (r: String)
        ensures
            self is NoModels ==> r@ == "mesh file contains no models"@,
            self is UnsupportedPixelFormat ==> r@ == "unsupported colour space or bit depth"@,
    {
        match self {
            AssetError::NoModels => "mesh file contains no models".to_owned(),
            AssetError::UnsupportedPixelFormat => "unsupported colour space or bit depth".to_owned(
            ),
        }
    }
}

/// The GL upload parameters for a decoded PNG: 8- or 16-bit RGB or RGBA map
/// to the matching format/type pair; every other combination is rejected.
pub fn texture_format_for(color_space: PngColorSpace, bit_depth: PngBitDepth) -> (r: Result<
    TextureFormat,
    AssetError,
>)
    ensures
        (match (color_space, bit_depth) {
            (PngColorSpace::Rgb, PngBitDepth::Eight) => r == Ok::<TextureFormat, AssetError>(
                TextureFormat { source_format: GL_RGB, source_type: GL_UNSIGNED_BYTE },
            ),
            (PngColorSpace::Rgb, PngBitDepth::Sixteen) => r == Ok::<TextureFormat, AssetError>(
                TextureFormat { source_format: GL_RGB, source_type: GL_UNSIGNED_SHORT },
            ),
            (PngColorSpace::Rgba, PngBitDepth::Eight) => r == Ok::<TextureFormat, AssetError>(
                TextureFormat { source_format: GL_RGBA, source_type: GL_UNSIGNED_BYTE },
            ),
            (PngColorSpace::Rgba, PngBitDepth::Sixteen) => r == Ok::<TextureFormat, AssetError>(
                TextureFormat { source_format: GL_RGBA, source_type: GL_UNSIGNED_SHORT },
            ),
            _ => r == Err::<TextureFormat, AssetError>(AssetError::UnsupportedPixelFormat),
        }),
{
    match (color_space, bit_depth) {
        (PngColorSpace::Rgb, PngBitDepth::Eight) => Ok(
            TextureFormat { source_format: GL_RGB, source_type: GL_UNSIGNED_BYTE },
        ),
        (PngColorSpace::Rgb, PngBitDepth::Sixteen) => Ok(
            TextureFormat { source_format: GL_RGB, source_type: GL_UNSIGNED_SHORT },
        ),
        (PngColorSpace::Rgba, PngBitDepth::Eight) => Ok(
            TextureFormat { source_format: GL_RGBA, source_type: GL_UNSIGNED_BYTE },
        ),
        (PngColorSpace::Rgba, PngBitDepth::Sixteen) => Ok(
            TextureFormat { source_format: GL_RGBA, source_type: GL_UNSIGNED_SHORT },
        ),
        _ => Err(AssetError::UnsupportedPixelFormat),
    }
}

/// A mesh file must contain at least one model.
pub fn validate_model_count(count: usize) -> (r: Result<(), AssetError>)
    ensures
        r is Ok <==> count > 0,
        count == 0 ==> r == Err::<(), AssetError>(AssetError::NoModels),
{
    if count == 0 {
        Err(AssetError::NoModels)
    } else {
        Ok(())
    }
}

} // verus!
