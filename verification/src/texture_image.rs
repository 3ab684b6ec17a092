use crate::gl_types::reinterpret_signed;
use crate::gl_types::to_signed;
use vstd::prelude::*;

verus! {

/// An image of the `image` crate, in any of its pixel formats. Nothing of
/// its inside is known here; it is handed on as it is.
#[verifier::external_type_specification]
#[verifier::external_body]
pub struct ExDynamicImage(image::DynamicImage);

/// The bytes of an image once it is converted to eight bits each of red,
/// green, blue and alpha: what `DynamicImage::to_rgba8` holds as its raw
/// buffer.
pub uninterp spec fn rgba8_bytes(image: image::DynamicImage) -> Seq<u8>;

/// The width and the height of an image, in pixels: what
/// `DynamicImage::width` and `DynamicImage::height` return.
pub uninterp spec fn image_extent(image: image::DynamicImage) -> (u32, u32);

/// Whether `len` bytes hold an image of `width` by `height` pixels of four
/// bytes each, as the `image` crate counts: it multiplies four by the width
/// and then by the height in `usize`, and gives up where either product
/// does not fit.
pub open spec fn holds_rgba8(width: u32, height: u32, len: nat) -> bool {
    4 * width <= usize::MAX && 4 * width * height <= len
}

/// Whether an image of `width` by `height` pixels can be converted to four
/// bytes for each pixel: a row of it can be counted in `usize`, and all of
/// it can be allocated.
pub open spec fn converts_to_rgba8(width: u32, height: u32) -> bool {
    4 * width <= usize::MAX && 4 * width * height <= isize::MAX
}

/// Calls `ImageBuffer::from_raw` for four 8-bit channels and wraps the
/// buffer as `DynamicImage::ImageRgba8`.
///
/// Trusted, from the source of `from_raw`: there is an image exactly when
/// `bytes` holds one of this size by the crate's count; the image keeps
/// `bytes` as its raw buffer and `width` and `height` as its size.
#[verifier::external_body]
fn rgba_image_from_raw(width: u32, height: u32, bytes: Vec<u8>) -> (image: Option<
    image::DynamicImage,
>)
    ensures
        image is Some <==> holds_rgba8(width, height, bytes@.len()),
        image is Some ==> rgba8_bytes(image->0) == bytes@,
        image is Some ==> image_extent(image->0) == (width, height),
{
    image::RgbaImage::from_raw(width, height, bytes).map(image::DynamicImage::ImageRgba8)
}

/// Calls `DynamicImage::width` and `DynamicImage::height`.
///
/// Trusted: no more than that the results are what the name stands for.
#[verifier::external_body]
fn image_size(image: &image::DynamicImage) -> (size: (u32, u32))
    ensures
        size == image_extent(*image),
{
    (image.width(), image.height())
}

/// Calls `DynamicImage::to_rgba8` and `ImageBuffer::into_raw` on what it
/// returns.
///
/// Trusted, from the source of `to_rgba8`: the result is what the name
/// stands for, and holds at least four bytes for each pixel of the image.
/// Left out are the images for which the conversion panics: those with a
/// row or a whole that it cannot count or allocate.
#[verifier::external_body]
fn rgba8_of(image: &image::DynamicImage) -> (bytes: Vec<u8>)
    requires
        converts_to_rgba8(image_extent(*image).0, image_extent(*image).1),
    ensures
        bytes@ == rgba8_bytes(*image),
        bytes@.len() >= 4 * image_extent(*image).0 * image_extent(*image).1,
{
    image.to_rgba8().into_raw()
}

/// Which data of a texture an image is made from.
#[derive(Debug, Clone, Copy, PartialEq, Eq, Structural)]
pub enum TextureContent {
    /// The colours of the texture.
    Color,
    /// The depth values of the texture, drawn as a gradient.
    Depth,
}

/// The message of the failure to make an image from texture data.
pub open spec fn image_failure_text(content: TextureContent) -> Seq<char> {
    match content {
        TextureContent::Color => "Failed to create image from texture data"@,
        TextureContent::Depth => "Failed to create image from depth texture data"@,
    }
}

/// The image of `width` by `height` pixels whose bytes, four for each pixel,
/// are `pixels`.
///
/// The image is made exactly when `pixels` holds enough bytes for all its
/// pixels, by the count of `holds_rgba8`; otherwise the result is the
/// failure with the message for `content`.
pub fn texture_image(width: u32, height: u32, pixels: Vec<u8>, content: TextureContent) -> (made:
    Result<image::DynamicImage, String>)
    ensures
        made is Ok <==> holds_rgba8(width, height, pixels@.len()),
        made is Ok ==> rgba8_bytes(made->Ok_0) == pixels@,
        made is Ok ==> image_extent(made->Ok_0) == (width, height),
        made is Err ==> made->Err_0@ == image_failure_text(content),
{
    match rgba_image_from_raw(width, height, pixels) {
        Some(image) => Ok(image),
        None => match content {
            TextureContent::Color => Err("Failed to create image from texture data".to_owned()),
            TextureContent::Depth => Err(
                "Failed to create image from depth texture data".to_owned(),
            ),
        },
    }
}

/// What is uploaded for a texture: its size, the size as the signed
/// integers that the graphics API takes, and the bytes of its pixels, four
/// for each.
#[derive(Debug)]
pub struct TextureData {
    pub width: u32,
    pub height: u32,
    pub gl_width: i32,
    pub gl_height: i32,
    pub pixels: Vec<u8>,
}

/// Whether an image of `width` by `height` pixels can be converted to four
/// bytes for each pixel.
pub fn can_convert_to_rgba8(width: u32, height: u32) -> (can: bool)
    ensures
        can == converts_to_rgba8(width, height),
{
    let row: u64 = 4 * (width as u64);
    if row > usize::MAX as u64 {
        return false;
    }
    assert(row * height <= 0x4_0000_0000 * 0x1_0000_0000) by (nonlinear_arith)
        requires
            0 <= row <= 0x4_0000_0000,
            0 <= height <= 0x1_0000_0000,
    ;
    let all: u128 = (row as u128) * (height as u128);
    all <= isize::MAX as u128
}

/// The data to upload for a texture made from `image`: the image converted
/// to eight bits each of red, green, blue and alpha. There is none for an
/// image that cannot be converted.
pub fn texture_data(image: &image::DynamicImage) -> (data: Option<TextureData>)
    ensures
        data is Some <==> converts_to_rgba8(image_extent(*image).0, image_extent(*image).1),
        data is Some ==> {
            let data = data->0;
            &&& (data.width, data.height) == image_extent(*image)
            &&& data.gl_width == reinterpret_signed(data.width)
            &&& data.gl_height == reinterpret_signed(data.height)
            &&& data.pixels@ == rgba8_bytes(*image)
            &&& data.pixels@.len() >= 4 * data.width * data.height
        },
{
    let (width, height) = image_size(image);
    if !can_convert_to_rgba8(width, height) {
        return None;
    }
    let pixels = rgba8_of(image);
    Some(
        TextureData {
            width,
            height,
            gl_width: to_signed(width),
            gl_height: to_signed(height),
            pixels,
        },
    )
}

} // verus!
