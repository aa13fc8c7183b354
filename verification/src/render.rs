use vstd::prelude::*;
use vstd::arithmetic::div_mod::lemma_fundamental_div_mod_converse;
use crate::{CAP, COLS, HEIGHT, ROWS, WIDTH};

verus! {

/// Background pixel color.
pub const BG_COLOR: u32 = 0x282828;
/// Foreground (glyph) pixel color.
pub const FG_COLOR: u32 = 0xe5e5e5;

/// Row `row` (0..8) of the 8x8 bitmap for character code `code` (0..128) in
/// the fixed glyph table; a function of the two indices alone.
pub uninterp spec fn glyph_row_of(code: int, row: int) -> u8;

/// Relies on font8x8::legacy::BASIC_LEGACY, a fixed `[[u8; 8]; 128]` table of
/// glyph bitmaps: the row returned depends on the two indices alone.
#[verifier::external_body]
fn glyph_row(code: usize, row: usize) -> (r: u8)
    requires
        code < 128,
        row < 8,
    ensures
        r == glyph_row_of(code as int, row as int),
{
    font8x8::legacy::BASIC_LEGACY[code][row]
}

/// The glyph-row mask that selects bit `bit` (0..8), as the renderer tests it.
pub open spec fn mask_of(bit: int) -> u8 {
    if bit == 0 {
        1
    } else if bit == 1 {
        2
    } else if bit == 2 {
        4
    } else if bit == 3 {
        8
    } else if bit == 4 {
        16
    } else if bit == 5 {
        32
    } else if bit == 6 {
        64
    } else if bit == 7 {
        128
    } else {
        0
    }
}

fn mask_at(bit: usize) -> (r: u8)
    ensures
        r == mask_of(bit as int),
{
    match bit {
        0 => 1,
        1 => 2,
        2 => 4,
        3 => 8,
        4 => 16,
        5 => 32,
        6 => 64,
        7 => 128,
        _ => 0,
    }
}

/// Color of the pixel pair for character `c` at text sub-row `line` (0..16)
/// and glyph bit `bit` (0..8): codes of 128 and above are a uniform
/// background block; otherwise the glyph bit picks foreground or background.
/// Only every other sub-row of the 8-row glyph is sampled, doubling its
/// height to fill the 16-pixel cell.
pub open spec fn cell_pixel(c: char, line: int, bit: int) -> u32 {
    if c as int >= 128 {
        BG_COLOR
    } else if glyph_row_of(c as int, line / 2) & mask_of(bit) == 0 {
        BG_COLOR
    } else {
        FG_COLOR
    }
}

/// Color of the frame pixel at surface coordinates (`x`, `y`): each grid cell
/// covers a 16 by 16 pixel block, each glyph bit a doubled pixel pair.
pub open spec fn pix_at(g: Seq<char>, y: int, x: int) -> u32 {
    cell_pixel(g[(y / 16) * (COLS as int) + x / 16], y % 16, (x % 16) / 2)
}

/// The full pixel frame for a grid: row-major, one `u32` color per pixel,
/// sized exactly WIDTH x HEIGHT.
pub open spec fn frame_spec(g: Seq<char>) -> Seq<u32> {
    Seq::new((WIDTH * HEIGHT) as nat, |k: int| pix_at(g, k / (WIDTH as int), k % (WIDTH as int)))
}

/// Index bookkeeping for one pushed pixel: the flat output index reached at
/// grid row `row`, sub-row `line`, column `col`, glyph bit `bit` and
/// duplicate `d` decodes back to exactly those coordinates.
proof fn lemma_pix_index(row: int, line: int, col: int, bit: int, d: int)
    requires
        0 <= row < ROWS,
        0 <= line < 16,
        0 <= col < COLS,
        0 <= bit < 8,
        0 <= d < 2,
    ensures
        ({
            let y = row * 16 + line;
            let x = col * 16 + bit * 2 + d;
            let k = y * (WIDTH as int) + x;
            &&& 0 <= k < WIDTH * HEIGHT
            &&& k / (WIDTH as int) == y
            &&& k % (WIDTH as int) == x
            &&& y / 16 == row
            &&& y % 16 == line
            &&& x / 16 == col
            &&& (x % 16) / 2 == bit
        }),
{
    let y = row * 16 + line;
    let x = col * 16 + bit * 2 + d;
    let k = y * (WIDTH as int) + x;
    lemma_fundamental_div_mod_converse(k, WIDTH as int, y, x);
    lemma_fundamental_div_mod_converse(y, 16, row, line);
    lemma_fundamental_div_mod_converse(x, 16, col, bit * 2 + d);
    lemma_fundamental_div_mod_converse(bit * 2 + d, 2, bit, d);
}

/// Rasterizes the grid into a full pixel frame: each cell becomes a 16 by 16
/// block of the two fixed colors, glyphs upsampled 2x in both axes; codes of
/// 128 and above render as solid background. The result is a function of the
/// grid alone, so re-rendering an unmodified grid reproduces the frame
/// bit for bit.
pub fn render_text_buffer(buffer: &Vec<char>) -> (out: Vec<u32>)
    requires
        buffer@.len() == CAP,
    ensures
        out@ == frame_spec(buffer@),
        out@.len() == WIDTH * HEIGHT,
{
    let ghost g = buffer@;
    let mut out: Vec<u32> = Vec::new();
    let mut row: usize = 0;
    while row < ROWS
        invariant
            buffer@.len() == CAP,
            buffer@ == g,
            row <= ROWS,
            out@.len() == row * 16 * WIDTH,
            forall|k: int| 0 <= k < out@.len() ==> out@[k] == pix_at(
                g,
                k / (WIDTH as int),
                k % (WIDTH as int),
            ),
        decreases ROWS - row,
    {
        let mut line: usize = 0;
        while line < 16
            invariant
                buffer@.len() == CAP,
                buffer@ == g,
                row < ROWS,
                line <= 16,
                out@.len() == (row * 16 + line) * WIDTH,
                forall|k: int| 0 <= k < out@.len() ==> out@[k] == pix_at(
                    g,
                    k / (WIDTH as int),
                    k % (WIDTH as int),
                ),
            decreases 16 - line,
        {
            let mut col: usize = 0;
            while col < COLS
                invariant
                    buffer@.len() == CAP,
                    buffer@ == g,
                    row < ROWS,
                    line < 16,
                    col <= COLS,
                    out@.len() == (row * 16 + line) * WIDTH + col * 16,
                    forall|k: int| 0 <= k < out@.len() ==> out@[k] == pix_at(
                        g,
                        k / (WIDTH as int),
                        k % (WIDTH as int),
                    ),
                decreases COLS - col,
            {
                let c = buffer[row * COLS + col];
                let code = c as u32;
                let glyph = if code < 128 {
                    glyph_row(code as usize, line / 2)
                } else {
                    0
                };
                let mut bit: usize = 0;
                while bit < 8
                    invariant
                        buffer@.len() == CAP,
                        buffer@ == g,
                        row < ROWS,
                        line < 16,
                        col < COLS,
                        bit <= 8,
                        c == g[row * (COLS as int) + col],
                        code == c as u32,
                        code < 128 ==> glyph == glyph_row_of(code as int, line as int / 2),
                        out@.len() == (row * 16 + line) * WIDTH + col * 16 + bit * 2,
                        forall|k: int| 0 <= k < out@.len() ==> out@[k] == pix_at(
                            g,
                            k / (WIDTH as int),
                            k % (WIDTH as int),
                        ),
                    decreases 8 - bit,
                {
                    let mask = mask_at(bit);
                    let pixel = if code >= 128 {
                        BG_COLOR
                    } else if glyph & mask == 0 {
                        BG_COLOR
                    } else {
                        FG_COLOR
                    };
                    proof {
                        lemma_pix_index(row as int, line as int, col as int, bit as int, 0);
                        lemma_pix_index(row as int, line as int, col as int, bit as int, 1);
                        assert(pixel == cell_pixel(c, line as int, bit as int));
                    }
                    out.push(pixel);
                    out.push(pixel);
                    bit += 1;
                }
                col += 1;
            }
            line += 1;
        }
        row += 1;
    }
    proof {
        assert(out@ =~= frame_spec(g));
    }
    out
}

/// A cell whose character code is 128 or more renders as a uniform
/// background-colored 16 by 16 pixel block: every pixel of that cell's block
/// in the frame is the background color.
pub proof fn lemma_high_code_renders_background(g: Seq<char>, ci: int, y: int, x: int)
    requires
        g.len() == CAP,
        0 <= ci < CAP,
        g[ci] as int >= 128,
        (ci / (COLS as int)) * 16 <= y < (ci / (COLS as int)) * 16 + 16,
        (ci % (COLS as int)) * 16 <= x < (ci % (COLS as int)) * 16 + 16,
    ensures
        0 <= y * (WIDTH as int) + x < WIDTH * HEIGHT,
        frame_spec(g)[y * (WIDTH as int) + x] == BG_COLOR,
{
    let row = ci / (COLS as int);
    let col = ci % (COLS as int);
    vstd::arithmetic::div_mod::lemma_fundamental_div_mod(ci, COLS as int);
    assert(0 <= row < ROWS) by {
        vstd::arithmetic::div_mod::lemma_div_pos_is_pos(ci, COLS as int);
        assert(row < ROWS) by (nonlinear_arith)
            requires
                ci < CAP,
                CAP == COLS * ROWS,
                COLS > 0,
                row == ci / (COLS as int),
                COLS * row + ci % (COLS as int) == ci,
                0 <= ci % (COLS as int),
            ;
    };
    assert(0 <= col < COLS) by {
        vstd::arithmetic::div_mod::lemma_mod_bound(ci, COLS as int);
    };
    let line = y - row * 16;
    let bit = (x - col * 16) / 2;
    let d = (x - col * 16) % 2;
    vstd::arithmetic::div_mod::lemma_fundamental_div_mod(x - col * 16, 2);
    vstd::arithmetic::div_mod::lemma_mod_bound(x - col * 16, 2);
    vstd::arithmetic::div_mod::lemma_div_pos_is_pos(x - col * 16, 2);
    assert(bit < 8) by (nonlinear_arith)
        requires
            2 * bit + d == x - col * 16,
            x - col * 16 < 16,
            0 <= d,
        ;
    lemma_pix_index(row, line, col, bit, d);
    assert(y * (WIDTH as int) + x == (row * 16 + line) * (WIDTH as int) + (col * 16 + bit * 2 + d));
    assert(pix_at(g, y, x) == cell_pixel(g[ci], line, bit));
}

/// Rendering is deterministic: equal grids yield bit-identical frames, so
/// re-rendering an unmodified grid reproduces the previous frame exactly.
pub proof fn lemma_render_deterministic(g1: Seq<char>, g2: Seq<char>)
    requires
        g1 == g2,
    ensures
        frame_spec(g1) == frame_spec(g2),
{
}

} // verus!
