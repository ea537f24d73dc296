//! What this library takes on trust from the `image` crate: decoding,
//! grayscale conversion and resampling. Nothing here is proved; each contract
//! repeats what the crate's documentation and source show.

use crate::geometry::resample_fits;
use image::imageops::FilterType;
use image::{DynamicImage, GenericImageView, ImageError, ImageReader};
use std::io::Cursor;
use vstd::prelude::*;

verus! {

/// `image::DynamicImage`: a decoded image of any pixel type. Opaque here.
#[verifier::external_type_specification]
#[verifier::external_body]
pub struct ExDynamicImage(DynamicImage);

/// `image::ImageError`: why the crate could not read an image. Opaque here.
#[verifier::external_type_specification]
#[verifier::external_body]
pub struct ExImageError(ImageError);

/// Width and height of an image, in pixels, as its
/// `GenericImageView::dimensions` reports them.
pub uninterp spec fn image_dimensions(img: DynamicImage) -> (u32, u32);

/// Whether an image holds 8-bit luminance samples and nothing else: whether
/// its `DynamicImage::as_luma8` gives a buffer.
pub uninterp spec fn image_is_luma8(img: DynamicImage) -> bool;

/// Whether the `DynamicImage::grayscale` of an image holds 8-bit luminance
/// samples and nothing else. The pixel type of the image alone settles it.
pub uninterp spec fn gray_is_luma8(img: DynamicImage) -> bool;

/// `ImageReader::new` over the bytes, then `with_guessed_format` and
/// `decode`: the format is taken from the content alone. Nothing is claimed
/// of the outcome. A failure to read while guessing comes back as the crate's
/// own I/O error.
#[verifier::external_body]
pub(crate) fn decode(bytes: &[u8]) -> (r: Result<DynamicImage, ImageError>) {
    ImageReader::new(Cursor::new(bytes)).with_guessed_format()?.decode()
}

/// `DynamicImage::grayscale`: a luminance version of the image, of the same
/// size. Its pixel type follows from that of the image: samples wider than
/// eight bits stay so, and an alpha channel is kept.
#[verifier::external_body]
pub(crate) fn grayscale(img: &DynamicImage) -> (gray: DynamicImage)
    ensures
        image_dimensions(gray) == image_dimensions(*img),
        image_is_luma8(gray) == gray_is_luma8(*img),
{
    img.grayscale()
}

/// `GenericImageView::dimensions` of a `DynamicImage`: width, then height.
#[verifier::external_body]
pub(crate) fn dimensions(img: &DynamicImage) -> (size: (u32, u32))
    ensures
        size == image_dimensions(*img),
{
    img.dimensions()
}

/// `DynamicImage::resize_exact` with the Lanczos filter of window 3: an image
/// of exactly the requested size and of the same pixel type. The crate panics
/// where a buffer would be longer than a vector can be (it allocates one of
/// the source's width by the new height, and the result), and where the
/// weights of a pixel sum to nothing, which sizes beyond `MAX_DIMENSION`
/// can bring about.
#[verifier::external_body]
pub(crate) fn resize_exact(img: &DynamicImage, nwidth: u32, nheight: u32) -> (resized:
    DynamicImage)
    requires
        resample_fits(
            image_dimensions(*img).0 as nat,
            image_dimensions(*img).1 as nat,
            nwidth as nat,
            nheight as nat,
        ),
    ensures
        image_dimensions(resized) == (nwidth, nheight),
        image_is_luma8(resized) == image_is_luma8(*img),
{
    img.resize_exact(nwidth, nheight, FilterType::Lanczos3)
}

/// `DynamicImage::as_luma8`, then the buffer's `pixels`: the samples of an
/// 8-bit grayscale image, one for each pixel, row by row from the top;
/// `None` for an image of any other pixel type.
#[verifier::external_body]
pub(crate) fn luma8_samples(img: &DynamicImage) -> (samples: Option<Vec<u8>>)
    ensures
        samples is Some <==> image_is_luma8(*img),
        samples matches Some(v) ==> v@.len() == image_dimensions(*img).0 * image_dimensions(
            *img,
        ).1,
{
    img.as_luma8().map(|buffer| buffer.pixels().map(|pixel| pixel.0[0]).collect())
}

} // verus!
