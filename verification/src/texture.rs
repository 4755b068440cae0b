//! Expansion of raw texture payloads into RGBA pixels.
//!
//! Streaming textures arrive as tightly packed gray, gray+alpha, RGB or
//! RGBA bytes with declared dimensions.  This module turns them into the
//! 4-bytes-per-pixel RGBA layout the rendering backend uploads, rejecting
//! payloads whose size does not match the declared dimensions.  Compressed
//! image files are opaque to the engine and stay with the backend's codec.

use vstd::prelude::*;

verus! {

/// A raw texture payload's pixel layout.
#[derive(Clone, Copy, Debug, PartialEq, Eq, Structural)]
pub enum TextureFormat {
    /// One gray byte per pixel.
    Gray,
    /// A gray byte and an alpha byte per pixel.
    GrayAlpha,
    /// Red, green and blue bytes per pixel.
    Rgb,
    /// Red, green, blue and alpha bytes per pixel.
    Rgba,
}

/// Why a texture payload was rejected.
#[derive(Clone, Copy, Debug, PartialEq, Eq, Structural)]
pub enum TextureError {
    /// The declared width and height multiply past the dimension limit.
    DimensionsOverflow,
    /// The payload does not hold exactly one record per declared pixel.
    SizeMismatch,
}

/// Bytes per pixel of a raw payload.
pub open spec fn bytes_per_pixel(format: TextureFormat) -> int {
    match format {
        TextureFormat::Gray => 1,
        TextureFormat::GrayAlpha => 2,
        TextureFormat::Rgb => 3,
        TextureFormat::Rgba => 4,
    }
}

/// The red, green, blue and alpha bytes of pixel `p` of a raw payload.
pub open spec fn pixel_rgba(format: TextureFormat, data: Seq<u8>, p: int) -> (u8, u8, u8, u8) {
    match format {
        TextureFormat::Gray => (data[p], data[p], data[p], 0xFF),
        TextureFormat::GrayAlpha => (data[2 * p], data[2 * p], data[2 * p], data[2 * p + 1]),
        TextureFormat::Rgb => (data[3 * p], data[3 * p + 1], data[3 * p + 2], 0xFF),
        TextureFormat::Rgba => (
            data[4 * p],
            data[4 * p + 1],
            data[4 * p + 2],
            data[4 * p + 3],
        ),
    }
}

/// Expands a raw texture payload into RGBA pixels.  Succeeds exactly when
/// the declared dimensions fit the dimension limit and the payload holds
/// exactly one record per pixel; the result holds each pixel's red, green,
/// blue and alpha bytes in order.
pub fn texture_to_rgba(format: TextureFormat, width: u32, height: u32, data: &[u8]) -> (r:
    Result<Vec<u8>, TextureError>)
    ensures
        match r {
            Ok(rgba) => width * height <= u32::MAX && data@.len() == width * height
                * bytes_per_pixel(format) && rgba@.len() == 4 * width * height && (forall|p: int|
                0 <= p < width * height ==> {
                    let px = #[trigger] pixel_rgba(format, data@, p);
                    rgba@[4 * p] == px.0 && rgba@[4 * p + 1] == px.1 && rgba@[4 * p + 2] == px.2
                        && rgba@[4 * p + 3] == px.3
                }),
            Err(TextureError::DimensionsOverflow) => width * height > u32::MAX,
            Err(TextureError::SizeMismatch) => width * height <= u32::MAX && data@.len()
                != width * height * bytes_per_pixel(format),
        },
{
    proof {
        assert((width as u64) * (height as u64) <= (u32::MAX as u64) * (u32::MAX as u64))
            by (nonlinear_arith)
            requires
                width as u64 <= u32::MAX as u64,
                height as u64 <= u32::MAX as u64,
        ;
    }
    if (width as u64) * (height as u64) > u32::MAX as u64 {
        return Err(TextureError::DimensionsOverflow);
    }
    let count = (width as u64 * height as u64) as usize;
    let bpp: usize = match format {
        TextureFormat::Gray => 1,
        TextureFormat::GrayAlpha => 2,
        TextureFormat::Rgb => 3,
        TextureFormat::Rgba => 4,
    };
    proof {
        assert((count as u64) * (bpp as u64) <= (u32::MAX as u64) * 4) by (nonlinear_arith)
            requires
                count as u64 <= u32::MAX as u64,
                bpp as u64 <= 4,
        ;
    }
    let dlen = data.len();
    if (dlen as u64) != (count as u64) * (bpp as u64) {
        return Err(TextureError::SizeMismatch);
    }
    let mut rgba: Vec<u8> = Vec::new();
    let mut p: usize = 0;
    while p < count
        invariant
            p <= count,
            count == width * height,
            bpp == bytes_per_pixel(format),
            data@.len() == count * bpp,
            data@.len() <= usize::MAX,
            rgba@.len() == 4 * p,
            forall|q: int|
                0 <= q < p ==> {
                    let px = #[trigger] pixel_rgba(format, data@, q);
                    rgba@[4 * q] == px.0 && rgba@[4 * q + 1] == px.1 && rgba@[4 * q + 2] == px.2
                        && rgba@[4 * q + 3] == px.3
                },
        decreases count - p,
    {
        proof {
            assert((p + 1) * bpp <= count * bpp) by (nonlinear_arith)
                requires
                    p < count,
                    bpp >= 1,
            ;
            assert(p * bpp + bpp == (p + 1) * bpp) by (nonlinear_arith);
        }
        match format {
            TextureFormat::Gray => {
                let g = data[p];
                rgba.push(g);
                rgba.push(g);
                rgba.push(g);
                rgba.push(0xFF);
            },
            TextureFormat::GrayAlpha => {
                let g = data[2 * p];
                let a = data[2 * p + 1];
                rgba.push(g);
                rgba.push(g);
                rgba.push(g);
                rgba.push(a);
            },
            TextureFormat::Rgb => {
                rgba.push(data[3 * p]);
                rgba.push(data[3 * p + 1]);
                rgba.push(data[3 * p + 2]);
                rgba.push(0xFF);
            },
            TextureFormat::Rgba => {
                rgba.push(data[4 * p]);
                rgba.push(data[4 * p + 1]);
                rgba.push(data[4 * p + 2]);
                rgba.push(data[4 * p + 3]);
            },
        }
        p += 1;
    }
    proof {
        assert(rgba@.len() == 4 * count);
        assert(4 * (count as int) == 4 * (width as int) * (height as int)) by (nonlinear_arith)
            requires
                count as int == (width as int) * (height as int),
        ;
    }
    Ok(rgba)
}

} // verus!
