use crate::gl_enums;
use vstd::prelude::*;

verus! {

/// How a texture is sampled across its mipmap levels; `Disabled` samples
/// the base level alone.
#[derive(Debug, Clone, Copy, PartialEq, Eq, Structural)]
pub enum MipmapType {
    Disabled,
    Linear,
    Nearest,
}

/// How a texture is sampled within a level.
#[derive(Debug, Clone, Copy, PartialEq, Eq, Structural)]
pub enum FilterMode {
    Linear,
    Nearest,
}

/// The two filter parameters of a texture.
#[derive(Debug, Clone, Copy, PartialEq, Eq, Structural)]
pub struct TextureFilters {
    /// The filter used where the texture is drawn smaller than it is.
    pub min_filter: u32,
    /// The filter used where the texture is drawn larger than it is.
    pub mag_filter: u32,
}

/// The minification filter for a mipmap type and a base filter.
pub open spec fn min_filter(mipmap_type: MipmapType, base_filter: FilterMode) -> u32 {
    match (mipmap_type, base_filter) {
        (MipmapType::Disabled, FilterMode::Linear) => gl_enums::LINEAR,
        (MipmapType::Disabled, FilterMode::Nearest) => gl_enums::NEAREST,
        (MipmapType::Nearest, FilterMode::Linear) => gl_enums::NEAREST_MIPMAP_LINEAR,
        (MipmapType::Nearest, FilterMode::Nearest) => gl_enums::NEAREST_MIPMAP_NEAREST,
        (MipmapType::Linear, FilterMode::Linear) => gl_enums::LINEAR_MIPMAP_LINEAR,
        (MipmapType::Linear, FilterMode::Nearest) => gl_enums::LINEAR_MIPMAP_NEAREST,
    }
}

/// The magnification filter for a base filter. Mipmaps play no part in
/// magnification.
pub open spec fn mag_filter(base_filter: FilterMode) -> u32 {
    match base_filter {
        FilterMode::Linear => gl_enums::LINEAR,
        FilterMode::Nearest => gl_enums::NEAREST,
    }
}

/// The filter parameters to set on the bound texture for `mipmap_type` and
/// `base_filter`.
pub fn texture_filters(mipmap_type: MipmapType, base_filter: FilterMode) -> (filters:
    TextureFilters)
    ensures
        filters.min_filter == min_filter(mipmap_type, base_filter),
        filters.mag_filter == mag_filter(base_filter),
{
    let min_filter: u32 = match mipmap_type {
        MipmapType::Disabled => match base_filter {
            FilterMode::Linear => gl_enums::LINEAR,
            FilterMode::Nearest => gl_enums::NEAREST,
        },
        MipmapType::Nearest => match base_filter {
            FilterMode::Linear => gl_enums::NEAREST_MIPMAP_LINEAR,
            FilterMode::Nearest => gl_enums::NEAREST_MIPMAP_NEAREST,
        },
        MipmapType::Linear => match base_filter {
            FilterMode::Linear => gl_enums::LINEAR_MIPMAP_LINEAR,
            FilterMode::Nearest => gl_enums::LINEAR_MIPMAP_NEAREST,
        },
    };
    let mag_filter: u32 = match base_filter {
        FilterMode::Linear => gl_enums::LINEAR,
        FilterMode::Nearest => gl_enums::NEAREST,
    };
    TextureFilters { min_filter, mag_filter }
}

/// The number of pixels of a texture of `width` by `height` pixels, which
/// is also the number of its depth values; `None` where the count does not
/// fit 32 bits.
pub fn pixel_count(width: u32, height: u32) -> (count: Option<usize>)
    ensures
        count is Some <==> width * height <= u32::MAX,
        count is Some ==> count->0 == width * height,
{
    match width.checked_mul(height) {
        Some(count) => Some(count as usize),
        None => None,
    }
}

/// The number of bytes of a texture of `width` by `height` pixels with four
/// bytes per pixel: red, green, blue and alpha; `None` where the count does
/// not fit 32 bits.
pub fn rgba_len(width: u32, height: u32) -> (len: Option<usize>)
    ensures
        len is Some <==> 4 * (width * height) <= u32::MAX,
        len is Some ==> len->0 == 4 * (width * height),
{
    match width.checked_mul(height) {
        Some(count) => match count.checked_mul(4) {
            Some(len) => Some(len as usize),
            None => None,
        },
        None => None,
    }
}

/// Whether every byte of `bytes` is zero, as the colour data read back from
/// a texture that holds depth and no colour is.
pub fn is_blank(bytes: &[u8]) -> (blank: bool)
    ensures
        blank == forall|i: int| 0 <= i < bytes@.len() ==> bytes@[i] == 0,
{
    let mut i: usize = 0;
    while i < bytes.len()
        invariant
            i <= bytes.len(),
            forall|j: int| 0 <= j < i ==> bytes@[j] == 0,
        decreases bytes.len() - i,
    {
        if bytes[i] != 0 {
            return false;
        }
        i += 1;
    }
    true
}

/// The pixels of a red-to-black gradient: for each level an opaque pixel
/// whose red channel is the level and whose green and blue are zero.
pub open spec fn gradient_of(levels: Seq<u8>) -> Seq<u8> {
    Seq::new(
        4 * levels.len(),
        |k: int|
            if k % 4 == 0 {
                levels[k / 4]
            } else if k % 4 == 3 {
                255u8
            } else {
                0u8
            },
    )
}

/// The pixels, four bytes each, of the red-to-black gradient over `levels`.
pub fn red_gradient(levels: &[u8]) -> (pixels: Vec<u8>)
    ensures
        pixels@ == gradient_of(levels@),
{
    let mut pixels: Vec<u8> = Vec::new();
    let mut i: usize = 0;
    while i < levels.len()
        invariant
            i <= levels.len(),
            pixels@ == gradient_of(levels@).take(4 * i),
        decreases levels.len() - i,
    {
        pixels.push(levels[i]);
        pixels.push(0);
        pixels.push(0);
        pixels.push(255);
        i += 1;
    }
    pixels
}

/// The message of the failure to build a complete framebuffer.
pub open spec fn framebuffer_incomplete_text() -> Seq<char> {
    "Framebuffer is not complete!"@
}

/// Whether a framebuffer with the status `status` can be rendered to: `Ok`
/// exactly for the status that means complete, else the failure with its
/// message.
pub fn check_framebuffer_status(status: u32) -> (checked: Result<(), String>)
    ensures
        checked is Ok <==> status == gl_enums::FRAMEBUFFER_COMPLETE,
        checked is Err ==> checked->Err_0@ == framebuffer_incomplete_text(),
{
    if status == gl_enums::FRAMEBUFFER_COMPLETE {
        Ok(())
    } else {
        Err("Framebuffer is not complete!".to_owned())
    }
}

} // verus!
