use asciiart::raster::GrayRaster;
use asciiart::stages::{grayscale_step, scaled_size, GrayscaleStep, MAX_DIMENSION};
use asciiart::{grayscale_to_ascii, ProcessingError};

const RAMP: &str = " .:-=+*#%@";

fn ramp_position(c: char) -> usize {
    RAMP.chars().position(|r| r == c).expect("character outside the ramp")
}

#[test]
fn quantize_ends_of_range() {
    assert_eq!(grayscale_to_ascii(0), ' ');
    assert_eq!(grayscale_to_ascii(255), '@');
}

#[test]
fn quantize_band_edges() {
    assert_eq!(grayscale_to_ascii(28), ' ');
    assert_eq!(grayscale_to_ascii(29), '.');
    assert_eq!(grayscale_to_ascii(64), ':');
    assert_eq!(grayscale_to_ascii(128), '=');
    assert_eq!(grayscale_to_ascii(254), '%');
}

#[test]
fn quantize_above_range_is_darkest() {
    assert_eq!(grayscale_to_ascii(256), '@');
    assert_eq!(grayscale_to_ascii(u32::MAX), '@');
}

#[test]
fn quantize_monotone_and_inside_ramp() {
    let mut last = 0usize;
    for gray in 0u32..=255 {
        let pos = ramp_position(grayscale_to_ascii(gray));
        assert!(pos >= last);
        last = pos;
    }
    assert_eq!(last, RAMP.len() - 1);
}

#[test]
fn render_two_by_two() {
    let raster = GrayRaster::new(2, 2, vec![0, 255, 128, 64]).unwrap();
    assert_eq!(raster.to_ascii(), " @\n=:\n");
}

#[test]
fn render_rows_are_row_major() {
    let raster = GrayRaster::new(3, 2, vec![255, 0, 0, 0, 0, 255]).unwrap();
    assert_eq!(raster.to_ascii(), "@  \n  @\n");
}

#[test]
fn render_single_pixel() {
    let raster = GrayRaster::new(1, 1, vec![200]).unwrap();
    assert_eq!(raster.to_ascii(), "#\n");
}

#[test]
fn raster_dimensions_and_pixels() {
    let raster = GrayRaster::new(3, 2, vec![1, 2, 3, 4, 5, 6]).unwrap();
    assert_eq!(raster.width(), 3);
    assert_eq!(raster.height(), 2);
    assert_eq!(raster.get_pixel(0, 2), 3);
    assert_eq!(raster.get_pixel(1, 0), 4);
}

#[test]
fn raster_rejects_bad_shapes() {
    assert!(GrayRaster::new(0, 2, vec![]).is_none());
    assert!(GrayRaster::new(2, 0, vec![]).is_none());
    assert!(GrayRaster::new(2, 2, vec![1, 2, 3]).is_none());
    assert!(GrayRaster::new(2, 2, vec![1, 2, 3, 4, 5]).is_none());
}

#[test]
fn grayscale_step_supported_depths() {
    for depth in [1u32, 2, 4, 16, 32] {
        assert_eq!(grayscale_step(depth, false), Ok(GrayscaleStep::Convert));
        assert_eq!(grayscale_step(depth, true), Ok(GrayscaleStep::Convert));
    }
    assert_eq!(grayscale_step(8, true), Ok(GrayscaleStep::Convert));
}

#[test]
fn grayscale_step_keeps_plain_eight_bit() {
    assert_eq!(grayscale_step(8, false), Ok(GrayscaleStep::Keep));
}

#[test]
fn grayscale_step_unsupported_depths() {
    for depth in [0u32, 3, 5, 24, 64] {
        assert_eq!(grayscale_step(depth, false), Err(ProcessingError::UnsupportedImageFormat));
        assert_eq!(grayscale_step(depth, true), Err(ProcessingError::UnsupportedImageFormat));
    }
}

fn truncated(dim: u32, ratio: f64) -> i64 {
    (dim as f64 * ratio) as i64
}

#[test]
fn scale_by_one_keeps_dimensions() {
    for (w, h) in [(1u32, 1u32), (640, 480), (17, 3)] {
        assert_eq!(scaled_size(truncated(w, 1.0), truncated(h, 1.0)), Ok((w, h)));
    }
}

#[test]
fn scale_by_half_on_even_dimensions() {
    for (w, h) in [(2u32, 2u32), (640, 480), (100, 38)] {
        assert_eq!(scaled_size(truncated(w, 0.5), truncated(h, 0.5)), Ok((w / 2, h / 2)));
    }
}

#[test]
fn scale_to_zero_is_raised_to_one() {
    assert_eq!(scaled_size(truncated(3, 0.1), truncated(40, 0.1)), Ok((1, 4)));
    assert_eq!(scaled_size(0, 0), Ok((1, 1)));
}

#[test]
fn scale_refuses_invalid_targets() {
    assert_eq!(scaled_size(-1, 5), Err(ProcessingError::CannotScale));
    assert_eq!(scaled_size(5, -8), Err(ProcessingError::CannotScale));
    assert_eq!(scaled_size(MAX_DIMENSION + 1, 5), Err(ProcessingError::CannotScale));
    assert_eq!(scaled_size(MAX_DIMENSION, 1), Ok((MAX_DIMENSION as u32, 1)));
}

#[test]
fn error_messages() {
    assert_eq!(ProcessingError::InvalidFile.message(), "File not found or file is not an image");
    assert_eq!(
        ProcessingError::CannotConvertToGrayscale.message(),
        "Could not convert file to grayscale"
    );
    assert_eq!(ProcessingError::UnsupportedImageFormat.message(), "File is not supported");
    assert_eq!(ProcessingError::CannotScale.message(), "Could not scale the image");
    assert_eq!(
        ProcessingError::CannotGetPixel.message(),
        "Could not extract a pixel from the image"
    );
}
