use vstd::prelude::*;

verus! {

/// Number of characters in the shading ramp.
pub const SHADE_COUNT: usize = 10;

/// The shading ramp, from the lightest character to the darkest.
pub open spec fn shade_ramp() -> Seq<char> {
    seq![' ', '.', ':', '-', '=', '+', '*', '#', '%', '@']
}

/// Position in the ramp of an intensity: `floor(gray / 255 * 9)`, clamped to
/// the last position for samples above 255.
pub open spec fn shade_index(gray: int) -> int {
    let raw = gray * (SHADE_COUNT - 1) / 255;
    if raw > SHADE_COUNT - 1 {
        SHADE_COUNT - 1
    } else {
        raw
    }
}

/// The character that stands for an intensity sample.
pub open spec fn quantize(gray: int) -> char {
    shade_ramp()[shade_index(gray)]
}

/// The ramp character at a given position.
fn shade_at(index: usize) -> (c: char)
    requires
        index < SHADE_COUNT,
    ensures
        c == shade_ramp()[index as int],
{
    match index {
        0 => ' ',
        1 => '.',
        2 => ':',
        3 => '-',
        4 => '=',
        5 => '+',
        6 => '*',
        7 => '#',
        8 => '%',
        _ => '@',
    }
}

/// Maps an 8-bit intensity sample to its shading character. Samples above 255
/// take the darkest character.
pub fn grayscale_to_ascii(gray: u32) -> (c: char)
    ensures
        c == quantize(gray as int),
{
    let g: u64 = gray as u64;
    assert(g * 9 <= 9 * 0xffff_ffffu64) by (nonlinear_arith)
        requires
            g <= 0xffff_ffffu64,
    ;
    let raw: u64 = g * ((SHADE_COUNT - 1) as u64) / 255;
    let index: usize = if raw > (SHADE_COUNT - 1) as u64 {
        SHADE_COUNT - 1
    } else {
        raw as usize
    };
    shade_at(index)
}

/// Quantization never moves toward a lighter character as the sample grows:
/// a larger sample maps to the same ramp position or a later one.
pub proof fn lemma_quantize_monotone(a: u32, b: u32)
    requires
        a <= b,
    ensures
        shade_index(a as int) <= shade_index(b as int),
{
    assert(a as int * 9 / 255 <= b as int * 9 / 255) by (nonlinear_arith)
        requires
            0 <= a <= b,
    ;
}

/// Every sample maps to a position inside the ramp, so the character it gets
/// is one of the ramp's characters.
pub proof fn lemma_quantize_in_ramp(gray: u32)
    ensures
        0 <= shade_index(gray as int) < shade_ramp().len(),
        shade_ramp().contains(quantize(gray as int)),
{
    assert(0 <= gray as int * 9 / 255) by (nonlinear_arith)
        requires
            0 <= gray,
    ;
    assert(shade_ramp().len() == SHADE_COUNT);
}

} // verus!
