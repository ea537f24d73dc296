//! From image bytes to text.

use crate::codec::{
    decode, dimensions, gray_is_luma8, grayscale, image_dimensions, luma8_samples, resize_exact,
};
use crate::error::AsciiError;
use crate::geometry::{resample_fits, target_height, target_size};
use crate::ramp::{canonical_glyphs, lemma_ramp_index_in_range, Ramp};
use crate::raster::{Grid, LumaRaster};
use crate::render::{
    glyph_of, grid_text, lemma_grid_text_cells, lemma_lines_text_on_ramp, render, text_cell,
};
use image::DynamicImage;
use vstd::prelude::*;

verus! {

/// Whether `text` is the rendering on `ramp` of some raster of `width`
/// columns by `height` rows.
pub open spec fn is_rendering(text: Seq<char>, width: nat, height: nat, ramp: Seq<char>) -> bool {
    exists|samples: Seq<u8>|
        samples.len() == width * height && text == #[trigger] grid_text(
            Grid { width, height, samples },
            ramp,
        )
}

/// Whether an image of `src_width` by `src_height` pixels can be brought to
/// `width` columns: there are columns, the image has pixels, and the grid of
/// `width` by `target_height` is within what can be resampled.
pub open spec fn can_resample(src_width: nat, src_height: nat, width: nat) -> bool {
    &&& width > 0 && src_width > 0 && src_height > 0
    &&& resample_fits(src_width, src_height, width, target_height(src_width, src_height, width))
}

/// Whether `text` is a conversion to `width` columns of some image of
/// `src_width` by `src_height` pixels: the image has pixels, the grid of
/// `width` by `target_height` is within what can be resampled, and the text
/// is a rendering of that size.
pub open spec fn is_conversion(
    text: Seq<char>,
    src_width: nat,
    src_height: nat,
    width: nat,
    ramp: Seq<char>,
) -> bool {
    &&& can_resample(src_width, src_height, width)
    &&& is_rendering(text, width, target_height(src_width, src_height, width), ramp)
}

/// A rendering of `width` columns by `height` rows is `height` lines: each
/// holds `width` glyphs of the ramp and then a line break, and nothing
/// follows the last line.
pub proof fn lemma_rendering_shape(text: Seq<char>, width: nat, height: nat, ramp: Seq<char>)
    requires
        is_rendering(text, width, height, ramp),
        ramp.len() >= 1,
    ensures
        text.len() == height * (width + 1),
        forall|row: int, col: int|
            0 <= row < height && 0 <= col < width ==> ramp.contains(
                #[trigger] text_cell(text, width, row, col),
            ),
        forall|row: int|
            0 <= row < height ==> #[trigger] text_cell(text, width, row, width as int) == '\n',
        forall|i: int| 0 <= i < text.len() ==> #[trigger] text[i] == '\n' || ramp.contains(text[i]),
{
    let samples = choose|samples: Seq<u8>|
        samples.len() == width * height && text == #[trigger] grid_text(
            Grid { width, height, samples },
            ramp,
        );
    let grid = Grid { width, height, samples };
    lemma_grid_text_cells(grid, ramp);
    lemma_lines_text_on_ramp(grid, ramp, height);
    assert forall|row: int, col: int| 0 <= row < height && 0 <= col < width implies ramp.contains(
        #[trigger] text_cell(text, width, row, col),
    ) by {
        lemma_ramp_index_in_range(grid.at(row, col), ramp.len());
        assert(text_cell(text, width, row, col) == glyph_of(ramp, grid.at(row, col)));
    }
}

/// A conversion has exactly `target_height` lines, so never none, and each
/// holds `width` glyphs of the ramp and then a line break.
pub proof fn lemma_conversion_shape(
    text: Seq<char>,
    src_width: nat,
    src_height: nat,
    width: nat,
    ramp: Seq<char>,
)
    requires
        is_conversion(text, src_width, src_height, width, ramp),
        ramp.len() >= 1,
    ensures
        target_height(src_width, src_height, width) >= 1,
        text.len() == target_height(src_width, src_height, width) * (width + 1),
        text.len() >= width + 1,
        forall|row: int, col: int|
            0 <= row < target_height(src_width, src_height, width) && 0 <= col < width
                ==> ramp.contains(#[trigger] text_cell(text, width, row, col)),
        forall|row: int|
            0 <= row < target_height(src_width, src_height, width) ==> #[trigger] text_cell(
                text,
                width,
                row,
                width as int,
            ) == '\n',
{
    let rows = target_height(src_width, src_height, width);
    lemma_rendering_shape(text, width, rows, ramp);
    assert(rows * (width + 1) >= width + 1) by (nonlinear_arith)
        requires
            rows >= 1,
    ;
}

/// The text for what the resampler handed back for a grid of `columns` by
/// `rows`: the rendering of the samples where there is exactly one for every
/// cell, else a `ResampleError`.
pub fn render_samples(columns: u32, rows: u32, samples: Option<Vec<u8>>, ramp: &Ramp) -> (r:
    Result<String, AsciiError>)
    ensures
        match samples {
            None => r matches Err(AsciiError::ResampleError(m)) && m@
                == "failed to convert resized image to grayscale pixels"@,
            Some(v) => if v@.len() == columns * rows {
                r matches Ok(text) && text@ == grid_text(
                    Grid { width: columns as nat, height: rows as nat, samples: v@ },
                    ramp@,
                )
            } else {
                r matches Err(AsciiError::ResampleError(m)) && m@
                    == "resized image does not match the requested size"@
            },
        },
{
    match samples {
        None => Err(
            AsciiError::ResampleError(
                String::from_str("failed to convert resized image to grayscale pixels"),
            ),
        ),
        Some(v) => match LumaRaster::new(columns as usize, rows as usize, v) {
            Some(raster) => Ok(render(&raster, ramp)),
            None => Err(
                AsciiError::ResampleError(
                    String::from_str("resized image does not match the requested size"),
                ),
            ),
        },
    }
}

/// The `DecodeError` for a failure of the image library: its cause is the
/// library's description behind a fixed opening.
pub fn decode_failure(description: &str) -> (e: AsciiError)
    ensures
        e matches AsciiError::DecodeError(m) && m@ == "failed to decode image: "@ + description@,
{
    let mut message = String::from_str("failed to decode image: ");
    message.append(description);
    AsciiError::DecodeError(message)
}

/// Renders a decoded image in `width` columns on `ramp`.
///
/// The image is converted to grayscale, resampled to `width` by
/// `target_height` and mapped to text. It succeeds exactly where the size can
/// be resampled and the grayscale image is of 8-bit luminance samples; which
/// error is returned otherwise is settled by `target_size` first.
pub fn image_to_ascii(img: &DynamicImage, width: usize, ramp: &Ramp) -> (r: Result<
    String,
    AsciiError,
>)
    ensures
        r is Ok <==> ({
            let (src_width, src_height) = image_dimensions(*img);
            &&& can_resample(src_width as nat, src_height as nat, width as nat)
            &&& gray_is_luma8(*img)
        }),
        ({
            let (src_width, src_height) = image_dimensions(*img);
            match r {
                Ok(text) => is_conversion(
                    text@,
                    src_width as nat,
                    src_height as nat,
                    width as nat,
                    ramp@,
                ),
                Err(AsciiError::InvalidArgument(m)) => width == 0 && m@ == "width must be > 0"@,
                Err(AsciiError::DecodeError(m)) => {
                    &&& width > 0 && (src_width == 0 || src_height == 0)
                    &&& m@ == "decoded image has zero width or height"@
                },
                Err(AsciiError::ResampleError(m)) => {
                    &&& width > 0 && src_width > 0 && src_height > 0
                    &&& if can_resample(src_width as nat, src_height as nat, width as nat) {
                        &&& !gray_is_luma8(*img)
                        &&& m@ == "failed to convert resized image to grayscale pixels"@
                    } else {
                        m@ == "requested size is too large to resample"@
                    }
                },
            }
        }),
{
    let gray = grayscale(img);
    let (src_width, src_height) = dimensions(&gray);
    match target_size(src_width, src_height, width) {
        Err(e) => Err(e),
        Ok((columns, rows)) => {
            let resized = resize_exact(&gray, columns, rows);
            let samples = luma8_samples(&resized);
            render_samples(columns, rows, samples, ramp)
        },
    }
}

/// Renders an encoded image in `width` columns on the default ramp.
///
/// Fails with `InvalidArgument` exactly where there are no bytes or no
/// columns. Otherwise the bytes are decoded, their format taken from their
/// content, and the image is rendered as `image_to_ascii` does: the text is
/// a conversion of an image of some size, so it is `width` columns wide and
/// has at least one line. What the image library makes of the bytes is not
/// part of this contract; `image_to_ascii` and `render_samples` say what
/// follows from each of its answers.
pub fn to_ascii(png_bytes: &[u8], width: usize) -> (r: Result<String, AsciiError>)
    ensures
        match r {
            Ok(text) => {
                &&& png_bytes@.len() > 0
                &&& exists|src_width: nat, src_height: nat| #[trigger]
                    is_conversion(text@, src_width, src_height, width as nat, canonical_glyphs())
            },
            Err(AsciiError::InvalidArgument(m)) => if png_bytes@.len() == 0 {
                m@ == "input bytes are empty"@
            } else {
                width == 0 && m@ == "width must be > 0"@
            },
            Err(AsciiError::DecodeError(m)) => {
                &&& png_bytes@.len() > 0 && width > 0
                &&& "failed to decode image: "@.is_prefix_of(m@) || m@
                    == "decoded image has zero width or height"@
            },
            Err(AsciiError::ResampleError(m)) => {
                &&& png_bytes@.len() > 0 && width > 0
                &&& m@ == "failed to convert resized image to grayscale pixels"@ || m@
                    == "requested size is too large to resample"@
            },
        },
{
    if png_bytes.len() == 0 {
        return Err(AsciiError::InvalidArgument(String::from_str("input bytes are empty")));
    }
    if width == 0 {
        return Err(AsciiError::InvalidArgument(String::from_str("width must be > 0")));
    }
    match decode(png_bytes) {
        Err(e) => {
            let description = e.to_string();
            Err(decode_failure(description.as_str()))
        },
        Ok(img) => {
            let ramp = Ramp::canonical();
            image_to_ascii(&img, width, &ramp)
        },
    }
}

} // verus!
