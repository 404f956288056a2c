use vstd::prelude::*;

use crate::error::ProcessingError;

verus! {

/// Largest dimension that the decoder's resampler accepts (a C `int`).
pub const MAX_DIMENSION: i64 = 0x7fff_ffff;

/// The bit depths that the grayscale normalizer handles.
pub open spec fn supported_depth(depth: u32) -> bool {
    depth == 1 || depth == 2 || depth == 4 || depth == 8 || depth == 16 || depth == 32
}

/// What normalization does to a decoded buffer.
#[derive(Debug, Clone, Copy, PartialEq, Eq, Structural)]
pub enum GrayscaleStep {
    /// The buffer is already 8-bit grayscale without a colormap: keep it as it is.
    Keep,
    /// Convert to 8-bit grayscale: through the colormap, by reducing 16-bit
    /// samples, or by combining the color channels of a 32-bit pixel.
    Convert,
}

/// Decides how a decoded buffer of the given bit depth, with or without a
/// colormap, becomes an 8-bit grayscale buffer. Depths outside
/// {1, 2, 4, 8, 16, 32} are refused.
pub fn grayscale_step(depth: u32, has_colormap: bool) -> (r: Result<GrayscaleStep, ProcessingError>)
    ensures
        r is Err <==> !supported_depth(depth),
        r is Err ==> r == Err::<GrayscaleStep, ProcessingError>(ProcessingError::UnsupportedImageFormat),
        r == Ok::<GrayscaleStep, ProcessingError>(GrayscaleStep::Keep) <==> (depth == 8 && !has_colormap),
{
    match depth {
        1 | 2 | 4 | 16 | 32 => Ok(GrayscaleStep::Convert),
        8 => if has_colormap {
            Ok(GrayscaleStep::Convert)
        } else {
            Ok(GrayscaleStep::Keep)
        },
        _ => Err(ProcessingError::UnsupportedImageFormat),
    }
}

/// The dimension used for a truncated target `t`: a target that truncates to 0
/// becomes 1; a negative target, or one above `MAX_DIMENSION`, has none.
pub open spec fn scaled_dimension(t: int) -> Option<int> {
    if t < 0 || t > MAX_DIMENSION {
        None
    } else if t == 0 {
        Some(1)
    } else {
        Some(t)
    }
}

fn target_dimension(t: i64) -> (r: Option<u32>)
    ensures
        r matches Some(d) ==> scaled_dimension(t as int) == Some(d as int),
        r is None ==> scaled_dimension(t as int) is None,
{
    if t < 0 || t > MAX_DIMENSION {
        None
    } else if t == 0 {
        Some(1)
    } else {
        Some(t as u32)
    }
}

/// The dimensions to resize to, given the width and height already multiplied
/// by the scale ratio and truncated toward zero. A dimension that truncates to 0
/// is raised to 1; a negative one, or one above `MAX_DIMENSION`, is refused with
/// `CannotScale`.
pub fn scaled_size(target_width: i64, target_height: i64) -> (r: Result<(u32, u32), ProcessingError>)
    ensures
        r is Ok <==> (scaled_dimension(target_width as int) is Some && scaled_dimension(
            target_height as int,
        ) is Some),
        r matches Ok((w, h)) ==> Some(w as int) == scaled_dimension(target_width as int) && Some(
            h as int,
        ) == scaled_dimension(target_height as int),
        r is Err ==> r == Err::<(u32, u32), ProcessingError>(ProcessingError::CannotScale),
        1 <= target_width <= MAX_DIMENSION && 1 <= target_height <= MAX_DIMENSION ==> r == Ok::<
            (u32, u32),
            ProcessingError,
        >((target_width as u32, target_height as u32)),
{
    match (target_dimension(target_width), target_dimension(target_height)) {
        (Some(w), Some(h)) => Ok((w, h)),
        _ => Err(ProcessingError::CannotScale),
    }
}

} // verus!
