use vstd::prelude::*;

use crate::shading::{grayscale_to_ascii, quantize};

verus! {

/// Relies on String::push: the character is appended at the end.
pub assume_specification[ String::push ](s: &mut String, ch: char)
    ensures
        final(s)@ == old(s)@.push(ch),
;

/// What a raster holds: its dimensions and its samples, row by row.
pub struct RasterView {
    pub width: nat,
    pub height: nat,
    pub samples: Seq<u32>,
}

/// An 8-bit grayscale pixel buffer, one intensity sample per pixel, stored
/// row-major. Width and height are positive and there are exactly
/// `width * height` samples.
pub struct GrayRaster {
    width: u32,
    height: u32,
    samples: Vec<u32>,
}

/// The text of one row: one shading character per column.
pub open spec fn render_row(samples: Seq<u32>, width: nat, row: nat) -> Seq<char> {
    Seq::new(width, |col: int| quantize(samples[row * width + col] as int))
}

/// The text of the first `rows` rows, each followed by a newline.
pub open spec fn render_rows(samples: Seq<u32>, width: nat, rows: nat) -> Seq<char>
    decreases rows,
{
    if rows == 0 {
        Seq::empty()
    } else {
        render_rows(samples, width, (rows - 1) as nat) + render_row(
            samples,
            width,
            (rows - 1) as nat,
        ).push('\n')
    }
}

/// The text of a whole raster.
pub open spec fn render_view(v: RasterView) -> Seq<char> {
    render_rows(v.samples, v.width, v.height)
}

/// Index of the sample at (row, col) lies inside the buffer.
proof fn lemma_index_in_bounds(row: int, col: int, width: int, height: int)
    requires
        0 <= row < height,
        0 <= col < width,
    ensures
        0 <= row * width + col < width * height,
{
    assert(row * width + col < width * height) by (nonlinear_arith)
        requires
            0 <= row < height,
            0 <= col < width,
    ;
    assert(0 <= row * width) by (nonlinear_arith)
        requires
            0 <= row,
            0 <= col < width,
    ;
}

/// The rendered text of `rows` rows has `width + 1` characters per row: the
/// character of the sample at (row, col) stands at `row * (width + 1) + col`,
/// and each row ends with a newline.
pub proof fn lemma_render_layout(samples: Seq<u32>, width: nat, rows: nat)
    ensures
        render_rows(samples, width, rows).len() == rows * (width + 1),
        forall|r: int, c: int|
            0 <= r < rows && 0 <= c < width ==> #[trigger] render_rows(samples, width, rows)[r * (
            width + 1) + c] == quantize(samples[r * width + c] as int),
        forall|r: int|
            0 <= r < rows ==> #[trigger] render_rows(samples, width, rows)[r * (width + 1)
                + width] == '\n',
    decreases rows,
{
    if rows > 0 {
        let prev = (rows - 1) as nat;
        lemma_render_layout(samples, width, prev);
        let head = render_rows(samples, width, prev);
        let text = render_rows(samples, width, rows);
        assert(prev * (width + 1) + (width + 1) == rows * (width + 1)) by (nonlinear_arith)
            requires
                prev + 1 == rows,
        ;
        assert(text.len() == head.len() + width + 1);
        assert forall|r: int, c: int| 0 <= r < rows && 0 <= c < width implies #[trigger] text[r * (
        width + 1) + c] == quantize(samples[r * width + c] as int) by {
            if r < prev {
                assert(r * (width + 1) + c < prev * (width + 1)) by (nonlinear_arith)
                    requires
                        0 <= r < prev,
                        0 <= c < width,
                ;
                assert(head[r * (width + 1) + c] == quantize(samples[r * width + c] as int));
            } else {
                assert(r == prev);
            }
        }
        assert forall|r: int| 0 <= r < rows implies #[trigger] text[r * (width + 1) + width]
            == '\n' by {
            if r < prev {
                assert(r * (width + 1) + width < prev * (width + 1)) by (nonlinear_arith)
                    requires
                        0 <= r < prev,
                ;
                assert(head[r * (width + 1) + width] == '\n');
            } else {
                assert(r == prev);
            }
        }
    } else {
        assert(rows * (width + 1) == 0) by (nonlinear_arith)
            requires
                rows == 0,
        ;
    }
}

impl View for GrayRaster {
    type V = RasterView;

    closed spec fn view(&self) -> RasterView {
        RasterView { width: self.width as nat, height: self.height as nat, samples: self.samples@ }
    }
}

impl GrayRaster {
    /// The buffer's invariant.
    pub closed spec fn wf(&self) -> bool {
        &&& self.width > 0
        &&& self.height > 0
        &&& self.samples@.len() == self.width * self.height
        &&& self.samples@.len() <= usize::MAX
    }

    /// Builds a raster from its dimensions and its samples, row by row.
    /// Returns `None` unless both dimensions are positive and there is one
    /// sample per pixel.
    pub fn new(width: u32, height: u32, samples: Vec<u32>) -> (r: Option<GrayRaster>)
        ensures
            r is Some <==> (width > 0 && height > 0 && samples@.len() == width * height),
            r matches Some(g) ==> g.wf() && g@ == (RasterView {
                width: width as nat,
                height: height as nat,
                samples: samples@,
            }),
    {
        assert((width as u64) * (height as u64) <= 0xffff_ffffu64 * 0xffff_ffffu64)
            by (nonlinear_arith)
            requires
                width <= 0xffff_ffffu64,
                height <= 0xffff_ffffu64,
        ;
        if width > 0 && height > 0 && samples.len() as u64 == (width as u64) * (height as u64) {
            Some(GrayRaster { width, height, samples })
        } else {
            None
        }
    }

    pub fn width(&self) -> (w: u32)
        ensures
            w == self@.width,
    {
        self.width
    }

    pub fn height(&self) -> (h: u32)
        ensures
            h == self@.height,
    {
        self.height
    }

    /// The intensity sample at (row, col).
    pub fn get_pixel(&self, row: u32, col: u32) -> (p: u32)
        requires
            self.wf(),
            row < self@.height,
            col < self@.width,
        ensures
            p == self@.samples[row * self@.width + col],
    {
        proof {
            lemma_index_in_bounds(row as int, col as int, self.width as int, self.height as int);
        }
        let index: usize = (row as usize) * (self.width as usize) + (col as usize);
        self.samples[index]
    }

    /// Renders the raster as text: `height` lines of `width` shading
    /// characters, each line ended by a newline, top to bottom, left to right.
    pub fn to_ascii(&self) -> (text: String)
        requires
            self.wf(),
        ensures
            text@ == render_view(self@),
    {
        let mut output = String::new();
        let mut row: u32 = 0;
        while row < self.height
            invariant
                self.wf(),
                row <= self.height,
                output@ == render_rows(self.samples@, self.width as nat, row as nat),
            decreases self.height - row,
        {
            let ghost before = output@;
            let mut col: u32 = 0;
            while col < self.width
                invariant
                    self.wf(),
                    row < self.height,
                    col <= self.width,
                    output@ == before + render_row(
                        self.samples@,
                        self.width as nat,
                        row as nat,
                    ).subrange(0, col as int),
                decreases self.width - col,
            {
                let gray = self.get_pixel(row, col);
                output.push(grayscale_to_ascii(gray));
                proof {
                    assert(render_row(self.samples@, self.width as nat, row as nat).subrange(
                        0,
                        col + 1,
                    ) =~= render_row(self.samples@, self.width as nat, row as nat).subrange(
                        0,
                        col as int,
                    ).push(quantize(gray as int)));
                }
                col = col + 1;
            }
            output.push('\n');
            proof {
                assert(render_row(self.samples@, self.width as nat, row as nat).subrange(
                    0,
                    self.width as int,
                ) =~= render_row(self.samples@, self.width as nat, row as nat));
                assert(output@ =~= render_rows(
                    self.samples@,
                    self.width as nat,
                    (row + 1) as nat,
                ));
            }
            row = row + 1;
        }
        output
    }
}

} // verus!
