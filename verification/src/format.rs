//! Texture formats the renderer deals in.
//!
//! The offscreen target uses one fixed format; the presentation pass
//! draws into whatever format the host surface carries.  The
//! presentation pipeline can only be built for a format that is usable
//! as a colour attachment, so that distinction is part of the model.

use vstd::prelude::*;

verus! {

/// An 8-bit-per-channel texture format.
#[derive(Clone, Copy, Debug, PartialEq, Eq, Structural)]
pub enum TextureFormat {
    /// RGBA, unsigned normalized.
    Rgba8Unorm,
    /// RGBA, unsigned normalized, sRGB-encoded.
    Rgba8UnormSrgb,
    /// BGRA, unsigned normalized.
    Bgra8Unorm,
    /// BGRA, unsigned normalized, sRGB-encoded.
    Bgra8UnormSrgb,
    /// RGBA, signed normalized.  Not usable as a colour attachment, so
    /// no render pipeline can target it.
    Rgba8Snorm,
}

/// Whether a pipeline may use `f` as its colour-attachment format.
/// Of the formats here only the signed-normalized one lacks
/// render-attachment capability.
pub open spec fn format_is_renderable(f: TextureFormat) -> bool {
    f != TextureFormat::Rgba8Snorm
}

/// Whether a pipeline may use `f` as its colour-attachment format.
pub fn is_renderable(f: TextureFormat) -> (r: bool)
    ensures
        r == format_is_renderable(f),
{
    match f {
        TextureFormat::Rgba8Snorm => false,
        _ => true,
    }
}

} // verus!
