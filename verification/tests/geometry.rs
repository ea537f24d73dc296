use ascii::geometry::{check_buffer, scaled_rows, MAX_DIMENSION};
use ascii::{target_size, AsciiError};

#[test]
fn rows_are_half_the_scaled_height() {
    assert_eq!(scaled_rows(4, 4, 4), 2);
    assert_eq!(scaled_rows(100, 50, 80), 20);
    // 7 * 5 / 3 = 11, 11 / 2 = 5
    assert_eq!(scaled_rows(3, 7, 5), 5);
    // 3 * 3 / 2 = 4, 4 / 2 = 2
    assert_eq!(scaled_rows(2, 3, 3), 2);
    assert_eq!(scaled_rows(1, 1000, 1), 500);
}

#[test]
fn rows_are_never_fewer_than_one() {
    assert_eq!(scaled_rows(300, 2, 10), 1);
    assert_eq!(scaled_rows(4, 1, 4), 1);
    assert_eq!(scaled_rows(10, 0, 10), 1);
    assert_eq!(scaled_rows(u32::MAX, 1, 1), 1);
    assert_eq!(scaled_rows(7, 7, 0), 1);
}

#[test]
fn rows_of_the_largest_dimensions() {
    let side = u32::MAX as u64;
    assert_eq!(scaled_rows(1, u32::MAX, u32::MAX), side * side / 2);
    assert_eq!(scaled_rows(u32::MAX, u32::MAX, u32::MAX), side / 2);
}

#[test]
fn grid_of_a_square_image() {
    assert_eq!(target_size(4, 4, 4), Ok((4, 2)));
    assert_eq!(target_size(640, 480, 80), Ok((80, 30)));
}

#[test]
fn grid_of_a_wide_and_short_image_has_one_row() {
    assert_eq!(target_size(300, 2, 10), Ok((10, 1)));
    assert_eq!(target_size(1000, 1, 1), Ok((1, 1)));
}

#[test]
fn grid_without_columns_is_an_invalid_argument() {
    assert_eq!(
        target_size(4, 4, 0),
        Err(AsciiError::InvalidArgument("width must be > 0".to_string()))
    );
    assert_eq!(
        target_size(0, 0, 0),
        Err(AsciiError::InvalidArgument("width must be > 0".to_string()))
    );
}

#[test]
fn grid_of_an_image_without_pixels_is_a_decode_error() {
    let expected = Err(AsciiError::DecodeError(
        "decoded image has zero width or height".to_string(),
    ));
    assert_eq!(target_size(0, 4, 10), expected);
    assert_eq!(target_size(4, 0, 10), expected);
    assert_eq!(target_size(0, 0, 10), expected);
}

#[test]
fn grid_beyond_the_resampler_is_a_resample_error() {
    let expected = Err(AsciiError::ResampleError(
        "requested size is too large to resample".to_string(),
    ));
    assert_eq!(target_size(1, u32::MAX, u32::MAX as usize), expected);
    assert_eq!(target_size(u32::MAX, u32::MAX, u32::MAX as usize), expected);
    if let Some(width) = (u32::MAX as usize).checked_add(1) {
        assert_eq!(target_size(4, 4, width), expected);
    }
    assert_eq!(target_size(4, 4, usize::MAX), expected);
}

#[test]
fn buffer_limit_is_sixteen_bytes_a_pixel() {
    assert!(check_buffer(0, 0));
    assert!(check_buffer(1920, 1080));
    assert!(check_buffer(0, u32::MAX));
    let limit = isize::MAX as u128;
    for &(width, rows) in &[
        (u32::MAX, u32::MAX),
        (1u32 << 16, 1u32 << 11),
        (1u32 << 14, 1u32 << 13),
        (1u32 << 31, 1u32 << 28),
        (1u32 << 30, 1u32 << 29),
    ] {
        let bytes = 16 * (width as u128) * (rows as u128);
        assert_eq!(check_buffer(width, rows), bytes <= limit);
    }
}

#[test]
fn largest_dimension_is_two_to_the_twenty_third() {
    assert_eq!(MAX_DIMENSION, 1 << 23);
    // the last pixel centre of the largest image is exact in single precision
    let centre = (MAX_DIMENSION - 1) as f32 + 0.5;
    assert_eq!(centre as f64, (MAX_DIMENSION - 1) as f64 + 0.5);
}

#[test]
fn grid_at_the_largest_dimension_is_accepted() {
    assert_eq!(target_size(1, MAX_DIMENSION, 2), Ok((2, MAX_DIMENSION)));
    assert_eq!(target_size(MAX_DIMENSION, 1, 1), Ok((1, 1)));
    assert_eq!(target_size(MAX_DIMENSION, 2, MAX_DIMENSION as usize), Ok((MAX_DIMENSION, 1)));
}

#[test]
fn grid_past_the_largest_dimension_is_a_resample_error() {
    let expected = Err(AsciiError::ResampleError(
        "requested size is too large to resample".to_string(),
    ));
    assert_eq!(target_size(MAX_DIMENSION + 1, 4, 4), expected);
    assert_eq!(target_size(4, MAX_DIMENSION + 1, 4), expected);
    assert_eq!(target_size(4, 4, MAX_DIMENSION as usize + 1), expected);
    // every argument within the limit, the rows beyond it
    assert_eq!(target_size(1, MAX_DIMENSION, 4), expected);
    assert_eq!(target_size(1, MAX_DIMENSION, 3), expected);
    // a tall strip widened: 134_217_738 rows
    assert_eq!(target_size(1, 67_108_869, 4), expected);
}
