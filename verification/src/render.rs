//! The glyph mapper: from a luminance raster to lines of text.

use crate::ramp::{lemma_ramp_index_in_range, ramp_index, Ramp};
use crate::raster::{Grid, LumaRaster};
use vstd::prelude::*;

verus! {

/// `String::push` appends the given character to the end of the string and
/// leaves what was there in place.
pub assume_specification[ String::push ](s: &mut String, ch: char)
    ensures
        final(s)@ == old(s)@.push(ch),
;

/// The glyph for one sample on the given ramp.
pub open spec fn glyph_of(ramp: Seq<char>, sample: u8) -> char
    recommends
        ramp.len() >= 1,
{
    ramp[ramp_index(sample, ramp.len()) as int]
}

/// The glyphs of one raster row, left to right.
pub open spec fn row_glyphs(grid: Grid, ramp: Seq<char>, row: int) -> Seq<char> {
    Seq::new(grid.width, |col: int| glyph_of(ramp, grid.at(row, col)))
}

/// The text of the first `rows` rows: for each row in turn its glyphs
/// followed by one line break.
pub open spec fn lines_text(grid: Grid, ramp: Seq<char>, rows: nat) -> Seq<char>
    decreases rows,
{
    if rows == 0 {
        Seq::empty()
    } else {
        lines_text(grid, ramp, (rows - 1) as nat) + row_glyphs(grid, ramp, rows - 1).push('\n')
    }
}

/// The text of a whole raster: one line per row, top to bottom.
pub open spec fn grid_text(grid: Grid, ramp: Seq<char>) -> Seq<char> {
    lines_text(grid, ramp, grid.height)
}

/// Maps every sample of `raster` to its glyph on `ramp` and joins the rows
/// into text, each row closed by a line break.
pub fn render(raster: &LumaRaster, ramp: &Ramp) -> (text: String)
    ensures
        text@ == grid_text(raster@, ramp@),
{
    let width = raster.width();
    let height = raster.height();
    let mut text = String::new();
    let mut row: usize = 0;
    while row < height
        invariant
            row <= height,
            width == raster@.width,
            height == raster@.height,
            text@ == lines_text(raster@, ramp@, row as nat),
        decreases height - row,
    {
        let ghost above = text@;
        let mut col: usize = 0;
        while col < width
            invariant
                col <= width,
                row < height,
                width == raster@.width,
                height == raster@.height,
                text@ == above + row_glyphs(raster@, ramp@, row as int).take(col as int),
            decreases width - col,
        {
            let glyph = ramp.glyph(raster.cell(row, col));
            text.push(glyph);
            proof {
                let line = row_glyphs(raster@, ramp@, row as int);
                assert(line.take(col + 1) =~= line.take(col as int).push(line[col as int]));
                assert(text@ =~= above + line.take(col + 1));
            }
            col += 1;
        }
        text.push('\n');
        proof {
            let line = row_glyphs(raster@, ramp@, row as int);
            assert(line.take(width as int) =~= line);
            assert(text@ =~= above + line.push('\n'));
        }
        row += 1;
    }
    text
}

/// The text of `rows` rows holds `width + 1` characters for each of them.
pub proof fn lemma_lines_text_len(grid: Grid, ramp: Seq<char>, rows: nat)
    ensures
        lines_text(grid, ramp, rows).len() == rows * (grid.width + 1),
    decreases rows,
{
    let stride = grid.width + 1;
    if rows > 0 {
        let above = (rows - 1) as nat;
        lemma_lines_text_len(grid, ramp, above);
        assert(rows * stride == above * stride + stride) by (nonlinear_arith)
            requires
                rows == above + 1,
        ;
    } else {
        assert(rows * stride == 0) by (nonlinear_arith)
            requires
                rows == 0,
        ;
    }
}

/// The `row`-th block of `width + 1` characters of a text.
pub open spec fn text_line(text: Seq<char>, width: nat, row: int) -> Seq<char> {
    text.subrange(row * (width + 1), (row + 1) * (width + 1))
}

/// Line `row` of the text stands at its place: the `width + 1` characters
/// from position `row * (width + 1)` on are the glyphs of that raster row
/// followed by a line break.
pub proof fn lemma_lines_text_line(grid: Grid, ramp: Seq<char>, rows: nat, row: int)
    requires
        0 <= row < rows,
    ensures
        (row + 1) * (grid.width + 1) <= lines_text(grid, ramp, rows).len(),
        text_line(lines_text(grid, ramp, rows), grid.width, row) == row_glyphs(
            grid,
            ramp,
            row,
        ).push('\n'),
    decreases rows,
{
    let stride: int = (grid.width + 1) as int;
    let above = lines_text(grid, ramp, (rows - 1) as nat);
    let last = row_glyphs(grid, ramp, rows - 1).push('\n');
    lemma_lines_text_len(grid, ramp, rows);
    lemma_lines_text_len(grid, ramp, (rows - 1) as nat);
    assert((row + 1) * stride == row * stride + stride) by (nonlinear_arith);
    assert(rows * stride == (rows - 1) * stride + stride) by (nonlinear_arith);
    assert(0 <= row * stride && (row + 1) * stride <= rows * stride) by (nonlinear_arith)
        requires
            0 <= row < rows,
            0 < stride,
    ;
    if row + 1 == rows {
        assert((above + last).subrange(row * stride, (row + 1) * stride) =~= last);
    } else {
        lemma_lines_text_line(grid, ramp, (rows - 1) as nat, row);
        assert((above + last).subrange(row * stride, (row + 1) * stride) =~= above.subrange(
            row * stride,
            (row + 1) * stride,
        ));
    }
}

/// The character in column `col` of line `row` of a text whose lines hold
/// `width` glyphs and a line break each.
pub open spec fn text_cell(text: Seq<char>, width: nat, row: int, col: int) -> char {
    text[row * (width + 1) + col]
}

/// The text of a raster is exactly `height` lines in the order of the rows:
/// line `row` holds in column `col` the glyph of the sample in that cell, and
/// after its `width` glyphs a line break.
pub proof fn lemma_grid_text_cells(grid: Grid, ramp: Seq<char>)
    ensures
        grid_text(grid, ramp).len() == grid.height * (grid.width + 1),
        forall|row: int, col: int|
            0 <= row < grid.height && 0 <= col < grid.width ==> #[trigger] text_cell(
                grid_text(grid, ramp),
                grid.width,
                row,
                col,
            ) == glyph_of(ramp, grid.at(row, col)),
        forall|row: int|
            0 <= row < grid.height ==> #[trigger] text_cell(
                grid_text(grid, ramp),
                grid.width,
                row,
                grid.width as int,
            ) == '\n',
{
    let text = grid_text(grid, ramp);
    let stride = (grid.width + 1) as int;
    lemma_lines_text_len(grid, ramp, grid.height);
    assert forall|row: int, col: int| 0 <= row < grid.height && 0 <= col <= grid.width implies {
        let c = #[trigger] text_cell(text, grid.width, row, col);
        if col < grid.width {
            c == glyph_of(ramp, grid.at(row, col))
        } else {
            c == '\n'
        }
    } by {
        lemma_lines_text_line(grid, ramp, grid.height, row);
        let line = text_line(text, grid.width, row);
        assert((row + 1) * stride == row * stride + stride) by (nonlinear_arith);
        assert(0 <= row * stride) by (nonlinear_arith)
            requires
                0 <= row,
                0 < stride,
        ;
        assert(line[col] == text[row * stride + col]);
    }
}

/// Every character of the text is a glyph of the ramp or a line break.
pub proof fn lemma_lines_text_on_ramp(grid: Grid, ramp: Seq<char>, rows: nat)
    requires
        ramp.len() >= 1,
    ensures
        forall|i: int|
            0 <= i < lines_text(grid, ramp, rows).len() ==> {
                let c = #[trigger] lines_text(grid, ramp, rows)[i];
                c == '\n' || ramp.contains(c)
            },
    decreases rows,
{
    if rows > 0 {
        let above = lines_text(grid, ramp, (rows - 1) as nat);
        let glyphs = row_glyphs(grid, ramp, rows - 1);
        lemma_lines_text_on_ramp(grid, ramp, (rows - 1) as nat);
        assert forall|i: int| 0 <= i < lines_text(grid, ramp, rows).len() implies {
            let c = #[trigger] lines_text(grid, ramp, rows)[i];
            c == '\n' || ramp.contains(c)
        } by {
            let k = i - above.len();
            if 0 <= k < glyphs.len() {
                lemma_ramp_index_in_range(grid.at(rows - 1, k), ramp.len());
                assert(lines_text(grid, ramp, rows)[i] == glyph_of(ramp, grid.at(rows - 1, k)));
            }
        }
    }
}

} // verus!
