//! The size of the character grid for a source image and a number of columns.

use crate::error::AsciiError;
use vstd::prelude::*;

verus! {

/// Largest width or height, of the source or of the grid, that is resampled.
///
/// The resampler places pixel centres, which lie half a pixel past a whole
/// number, in single precision: up to 2^23 they are held exactly. Beyond, a
/// centre can land so far from its pixels that no weight is left to
/// normalise.
pub const MAX_DIMENSION: u32 = 8_388_608;

/// Rows of text for an image of `src_width` by `src_height` pixels shown in
/// `width` columns: `src_height * width / src_width / 2` rounded down, since a
/// character cell is about twice as tall as it is wide, and never less than
/// one.
pub open spec fn target_height(src_width: nat, src_height: nat, width: nat) -> nat
    recommends
        src_width > 0,
{
    let scaled = src_height * width / src_width / 2;
    if scaled < 1 {
        1
    } else {
        scaled
    }
}

/// Whether a pixel buffer of `width` by `rows` is no larger than an
/// allocation may be, whatever its pixel type: the resampler's largest pixel
/// has four channels of four bytes.
pub open spec fn buffer_fits(width: nat, rows: nat) -> bool {
    16 * (width * rows) <= isize::MAX
}

/// Whether an image of `src_width` by `src_height` pixels can be resampled to
/// `width` by `rows`: none of the four exceeds `MAX_DIMENSION`, and neither
/// the intermediate buffer (`src_width` by `rows`) nor the result is too
/// large.
pub open spec fn resample_fits(src_width: nat, src_height: nat, width: nat, rows: nat) -> bool {
    &&& src_width <= MAX_DIMENSION && src_height <= MAX_DIMENSION
    &&& width <= MAX_DIMENSION && rows <= MAX_DIMENSION
    &&& buffer_fits(src_width, rows)
    &&& buffer_fits(width, rows)
}

/// `target_height` for dimensions that the image library can hold.
pub fn scaled_rows(src_width: u32, src_height: u32, width: u32) -> (rows: u64)
    requires
        src_width > 0,
    ensures
        rows == target_height(src_width as nat, src_height as nat, width as nat),
        rows >= 1,
{
    assert(src_height * width <= 0xffff_ffff * 0xffff_ffff) by (nonlinear_arith)
        requires
            0 <= src_height <= 0xffff_ffff,
            0 <= width <= 0xffff_ffff,
    ;
    let area: u64 = (src_height as u64) * (width as u64);
    let scaled: u64 = area / (src_width as u64) / 2;
    if scaled < 1 {
        1
    } else {
        scaled
    }
}

/// Decides `buffer_fits`.
pub fn check_buffer(width: u32, rows: u32) -> (fits: bool)
    ensures
        fits == buffer_fits(width as nat, rows as nat),
{
    assert(0 <= width * rows <= 0xffff_ffff * 0xffff_ffff) by (nonlinear_arith)
        requires
            0 <= width <= 0xffff_ffff,
            0 <= rows <= 0xffff_ffff,
    ;
    let pixels: u64 = (width as u64) * (rows as u64);
    16 * (pixels as u128) <= isize::MAX as u128
}

/// The grid for a source image of the given size shown in `width` columns.
///
/// Fails with `InvalidArgument` for no columns, with `DecodeError` for an
/// image without pixels, and with `ResampleError` where the grid is beyond
/// what can be resampled; otherwise the grid is `width` columns by
/// `target_height` rows.
pub fn target_size(src_width: u32, src_height: u32, width: usize) -> (r: Result<
    (u32, u32),
    AsciiError,
>)
    ensures
        match r {
            Ok((columns, rows)) => {
                &&& width > 0 && src_width > 0 && src_height > 0
                &&& columns == width
                &&& rows == target_height(src_width as nat, src_height as nat, width as nat)
                &&& resample_fits(src_width as nat, src_height as nat, width as nat, rows as nat)
            },
            Err(AsciiError::InvalidArgument(m)) => width == 0 && m@ == "width must be > 0"@,
            Err(AsciiError::DecodeError(m)) => {
                &&& width > 0 && (src_width == 0 || src_height == 0)
                &&& m@ == "decoded image has zero width or height"@
            },
            Err(AsciiError::ResampleError(m)) => {
                &&& width > 0 && src_width > 0 && src_height > 0
                &&& !resample_fits(
                    src_width as nat,
                    src_height as nat,
                    width as nat,
                    target_height(src_width as nat, src_height as nat, width as nat),
                )
                &&& m@ == "requested size is too large to resample"@
            },
        },
{
    if width == 0 {
        return Err(AsciiError::InvalidArgument(String::from_str("width must be > 0")));
    }
    if src_width == 0 || src_height == 0 {
        return Err(
            AsciiError::DecodeError(String::from_str("decoded image has zero width or height")),
        );
    }
    if src_width > MAX_DIMENSION || src_height > MAX_DIMENSION || width > MAX_DIMENSION as usize {
        return Err(
            AsciiError::ResampleError(String::from_str("requested size is too large to resample")),
        );
    }
    let columns: u32 = width as u32;
    let scaled: u64 = scaled_rows(src_width, src_height, columns);
    if scaled > MAX_DIMENSION as u64 {
        return Err(
            AsciiError::ResampleError(String::from_str("requested size is too large to resample")),
        );
    }
    let rows: u32 = scaled as u32;
    if check_buffer(src_width, rows) && check_buffer(columns, rows) {
        Ok((columns, rows))
    } else {
        Err(AsciiError::ResampleError(String::from_str("requested size is too large to resample")))
    }
}

/// The number of rows is the aspect-corrected height rounded down: unless it
/// was raised to one, `rows * 2 * src_width` does not exceed
/// `src_height * width`, and one row more would.
pub proof fn lemma_target_height_floor(src_width: nat, src_height: nat, width: nat)
    requires
        src_width > 0,
    ensures
        target_height(src_width, src_height, width) >= 1,
        src_height * width < 2 * src_width * (target_height(src_width, src_height, width) + 1),
        src_height * width >= 2 * src_width ==> 2 * src_width * target_height(
            src_width,
            src_height,
            width,
        ) <= src_height * width,
        src_height * width < 2 * src_width ==> target_height(src_width, src_height, width) == 1,
{
    let area: int = (src_height * width) as int;
    let per_width: int = area / (src_width as int);
    let scaled: int = per_width / 2;
    assert(area >= 0) by (nonlinear_arith)
        requires
            area == src_height * width,
    ;
    assert(src_width * per_width <= area < src_width * per_width + src_width
        && per_width >= 0) by (nonlinear_arith)
        requires
            per_width == area / (src_width as int),
            src_width > 0,
            area >= 0,
    ;
    assert(2 * scaled <= per_width < 2 * scaled + 2);
    assert(2 * src_width * scaled <= area < 2 * src_width * (scaled + 1)) by (nonlinear_arith)
        requires
            src_width * per_width <= area < src_width * per_width + src_width,
            2 * scaled <= per_width < 2 * scaled + 2,
            src_width > 0,
    ;
    if scaled < 1 {
        assert(2 * src_width * (scaled + 1) <= 2 * src_width * 1) by (nonlinear_arith)
            requires
                scaled + 1 <= 1,
                src_width > 0,
        ;
        assert(2 * src_width * (1 + 1) >= 2 * src_width * 1) by (nonlinear_arith)
            requires
                src_width > 0,
        ;
    } else {
        assert(2 * src_width * scaled >= 2 * src_width * 1) by (nonlinear_arith)
            requires
                scaled >= 1,
                src_width > 0,
        ;
    }
}

} // verus!
