//! Tile images.
//!
//! A tile is an `image::DynamicImage`. Verus cannot look inside one, so this
//! module names what a tile holds and states, without proof, what the few
//! methods of the `image` crate that the filters call do to it. Everything
//! else in the crate is proved against these statements.

use vstd::prelude::*;
use image::DynamicImage;
use crate::attachment::{AttachmentConfig, AttachmentFormat};
use crate::pixel::Pixel;

verus! {

/// `image::DynamicImage`: an image in one of several pixel encodings. Opaque
/// to the verifier.
#[verifier::external_type_specification]
#[verifier::external_body]
pub struct ExDynamicImage(image::DynamicImage);

/// The width and the height of an image in pixels, as
/// `GenericImageView::dimensions` returns them.
pub uninterp spec fn image_size(img: DynamicImage) -> (u32, u32);

/// The tile format that an image's encoding stands for, as
/// `DynamicImage::color` tells it: `None` for the encodings that no tile has.
pub uninterp spec fn image_format(img: DynamicImage) -> Option<AttachmentFormat>;

/// The pixels of an image: the channel values found at each position `(x, y)`
/// with `x` below the width and `y` below the height.
pub uninterp spec fn image_pixels(img: DynamicImage) -> Map<(int, int), Seq<int>>;

/// The positions of the pixels of an image of the given size.
pub open spec fn positions(width: int, height: int) -> Set<(int, int)> {
    Set::new(|p: (int, int)| 0 <= p.0 < width && 0 <= p.1 < height)
}

/// Reads the size of an image with `GenericImageView::dimensions`. An image
/// holds one pixel at each position inside its size, and none elsewhere.
#[verifier::external_body]
fn dimensions(img: &DynamicImage) -> (size: (u32, u32))
    ensures
        size == image_size(*img),
        image_pixels(*img).dom() == positions(size.0 as int, size.1 as int),
{
    image::GenericImageView::dimensions(img)
}

/// Reads the encoding of an image with `DynamicImage::color` and turns it
/// into the tile format of the same layout, if there is one.
#[verifier::external_body]
fn format_of(img: &DynamicImage) -> (format: Option<AttachmentFormat>)
    ensures
        format == image_format(*img),
{
    match img.color() {
        image::ColorType::Rgb8 => Some(AttachmentFormat::Rgb8),
        image::ColorType::Rgba8 => Some(AttachmentFormat::Rgba8),
        image::ColorType::L16 => Some(AttachmentFormat::R16),
        image::ColorType::La16 => Some(AttachmentFormat::Rg16),
        _ => None,
    }
}

/// Reads the pixel at `(x, y)` with `ImageBuffer::get_pixel`, which panics
/// outside the image's bounds. The result is `None` exactly for the encodings
/// that no tile has; otherwise it is of the image's format and holds the
/// channel values found at that position.
#[verifier::external_body]
pub(crate) fn get_pixel(img: &DynamicImage, x: u32, y: u32) -> (pixel: Option<Pixel>)
    requires
        x < image_size(*img).0,
        y < image_size(*img).1,
    ensures
        pixel is Some <==> image_format(*img) is Some,
        pixel matches Some(p) ==> image_format(*img) == Some(p.format()) && p@ == image_pixels(
            *img,
        )[(x as int, y as int)],
{
    match img {
        DynamicImage::ImageRgb8(buffer) => Some(Pixel::Rgb8(buffer.get_pixel(x, y).0)),
        DynamicImage::ImageRgba8(buffer) => Some(Pixel::Rgba8(buffer.get_pixel(x, y).0)),
        DynamicImage::ImageLuma16(buffer) => Some(Pixel::R16(buffer.get_pixel(x, y).0)),
        DynamicImage::ImageLumaA16(buffer) => Some(Pixel::Rg16(buffer.get_pixel(x, y).0)),
        _ => None,
    }
}

/// Writes `pixel` at `(x, y)` with `ImageBuffer::put_pixel`, which panics
/// outside the image's bounds. The pixel at that position takes the new
/// channel values; every other pixel, the size and the encoding stay as they
/// were. An image of another format than the pixel's is left untouched.
#[verifier::external_body]
pub(crate) fn put_pixel(img: &mut DynamicImage, x: u32, y: u32, pixel: Pixel)
    requires
        x < image_size(*old(img)).0,
        y < image_size(*old(img)).1,
    ensures
        image_size(*final(img)) == image_size(*old(img)),
        image_format(*final(img)) == image_format(*old(img)),
        image_pixels(*final(img)) == (if image_format(*old(img)) == Some(pixel.format()) {
            image_pixels(*old(img)).insert((x as int, y as int), pixel@)
        } else {
            image_pixels(*old(img))
        }),
{
    match (img, pixel) {
        (DynamicImage::ImageRgb8(buffer), Pixel::Rgb8(p)) => buffer.put_pixel(x, y, image::Rgb(p)),
        (DynamicImage::ImageRgba8(buffer), Pixel::Rgba8(p)) => buffer.put_pixel(x, y, image::Rgba(p)),
        (DynamicImage::ImageLuma16(buffer), Pixel::R16(p)) => buffer.put_pixel(x, y, image::Luma(p)),
        (DynamicImage::ImageLumaA16(buffer), Pixel::Rg16(p)) => buffer.put_pixel(x, y, image::LumaA(p)),
        _ => {},
    }
}

/// Whether an image is a tile of an attachment: of its format, and square with
/// the attachment's tile size as its side.
pub open spec fn is_tile(img: DynamicImage, attachment: AttachmentConfig) -> bool {
    &&& image_format(img) == Some(attachment.format)
    &&& image_size(img).0 == attachment.side()
    &&& image_size(img).1 == attachment.side()
    &&& image_pixels(img).dom() == positions(attachment.side(), attachment.side())
}

/// Tests whether an image is a tile of an attachment.
pub fn tile_matches(img: &DynamicImage, attachment: &AttachmentConfig) -> (fits: bool)
    ensures
        fits == is_tile(*img, *attachment),
{
    let (width, height) = dimensions(img);
    match (format_of(img), attachment.tile_size()) {
        (Some(format), Some(side)) => format == attachment.format && width == side && height == side,
        _ => false,
    }
}

/// Reads the pixel at `(x, y)` of a tile, or `None` outside the image or where
/// its encoding is one that no tile has.
pub fn pixel_at(img: &DynamicImage, x: u32, y: u32) -> (pixel: Option<Pixel>)
    ensures
        pixel is Some <==> x < image_size(*img).0 && y < image_size(*img).1 && image_format(
            *img,
        ) is Some,
        pixel matches Some(p) ==> image_format(*img) == Some(p.format()) && p@ == image_pixels(
            *img,
        )[(x as int, y as int)],
{
    let (width, height) = dimensions(img);
    if x < width && y < height {
        get_pixel(img, x, y)
    } else {
        None
    }
}

} // verus!
