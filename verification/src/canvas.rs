//! A picture as a buffer of bytes, four per pixel, row by row, and the
//! operations that paint into it.

use vstd::arithmetic::div_mod::{lemma_fundamental_div_mod, lemma_fundamental_div_mod_converse};
use vstd::prelude::*;

verus! {

/// A colour: red, green, blue, alpha.
pub type Color = (u8, u8, u8, u8);

/// The byte of a colour that is stored at `offset` within a pixel: blue,
/// green, red, alpha.
pub open spec fn channel(color: Color, offset: int) -> u8 {
    if offset == 0 {
        color.2
    } else if offset == 1 {
        color.1
    } else if offset == 2 {
        color.0
    } else {
        color.3
    }
}

/// Whether a buffer of `len` bytes holds all four bytes of pixel `p`.
pub open spec fn holds_pixel(len: int, p: int) -> bool {
    0 <= p && 4 * p + 3 < len
}

/// The buffer after every pixel that it holds and that `covers` selects has
/// been given `color`. Pixels are numbered row by row.
pub open spec fn painted(canvas: Seq<u8>, covers: spec_fn(int) -> bool, color: Color) -> Seq<u8> {
    Seq::new(
        canvas.len(),
        |i: int|
            if holds_pixel(canvas.len() as int, i / 4) && covers(i / 4) {
                channel(color, i % 4)
            } else {
                canvas[i]
            },
    )
}

/// Whether bit `k` of `bits` is set.
pub open spec fn bit_set(bits: u8, k: u8) -> bool {
    (bits >> k) & 1 == 1
}

/// Whether a glyph has a dot at column `dx` and line `dy` of its box, which
/// is six pixels wide and twelve high. The glyph has six rows of six bits;
/// every row is drawn two lines high, the highest of the six bits leftmost.
pub open spec fn glyph_dot(glyph: Seq<u8>, dx: int, dy: int) -> bool {
    &&& 0 <= dx < 6
    &&& 0 <= dy < 12
    &&& bit_set(glyph[dy / 2], (5 - dx) as u8)
}

/// Whether pixel `p` of a picture `width` wide and `height` high lies in the
/// box at (`x`, `y`) that is `w` wide and `h` high, and, where a glyph is
/// given, on a dot of the glyph.
pub open spec fn in_box(
    width: int,
    height: int,
    x: int,
    y: int,
    w: int,
    h: int,
    glyph: Option<Seq<u8>>,
    p: int,
) -> bool {
    &&& width > 0
    &&& x <= p % width < x + w
    &&& y <= p / width < y + h
    &&& p / width < height
    &&& match glyph {
        Some(rows) => glyph_dot(rows, p % width - x, p / width - y),
        None => true,
    }
}

/// Gives pixel `p` the colour, if the buffer holds it.
pub fn put_pixel(canvas: &mut [u8], p: u64, color: Color)
    ensures
        final(canvas)@ == painted(old(canvas)@, |q: int| q == p, color),
{
    let cells: usize = canvas.len() / 4;
    if p < cells as u64 {
        let idx: usize = (p as usize) * 4;
        canvas[idx] = color.2;
        canvas[idx + 1] = color.1;
        canvas[idx + 2] = color.0;
        canvas[idx + 3] = color.3;
    }
}

/// Gives every pixel that the buffer holds the colour. Bytes after the last
/// whole pixel stay as they are.
pub fn fill_all(canvas: &mut [u8], color: Color)
    ensures
        final(canvas)@ == painted(old(canvas)@, |q: int| true, color),
{
    let cells: usize = canvas.len() / 4;
    let mut p: usize = 0;
    while p < cells
        invariant
            p <= cells,
            cells == old(canvas)@.len() / 4,
            canvas@.len() == old(canvas)@.len(),
            canvas@ == painted(old(canvas)@, |q: int| q < p, color),
        decreases cells - p,
    {
        put_pixel(canvas, p as u64, color);
        p += 1;
    }
}

/// Pixel `row * width + column` is the only one in that row and column.
proof fn lemma_cell(width: int, column: int, row: int, p: int)
    requires
        0 <= column < width,
        0 <= row,
        0 <= p,
    ensures
        (p % width == column && p / width == row) <==> p == row * width + column,
{
    lemma_fundamental_div_mod(p, width);
    assert(width * (p / width) == (p / width) * width) by (nonlinear_arith);
    if p == row * width + column {
        lemma_fundamental_div_mod_converse(p, width, row, column);
    }
}

/// Paints the box at (`x`, `y`), `w` wide and `h` high, as far as it lies
/// within the picture; where a glyph is given, only its dots. The box may
/// reach far beyond the picture.
pub fn paint_box(
    canvas: &mut [u8],
    width: u32,
    height: u32,
    x: u64,
    y: u64,
    w: u64,
    h: u64,
    glyph: Option<[u8; 6]>,
    color: Color,
)
    requires
        x < 0x1_0000_0000_0000,
        y < 0x1_0000_0000_0000,
        w < 0x1_0000_0000_0000,
        h < 0x1_0000_0000_0000,
        glyph is Some ==> w == 6 && h == 12,
    ensures
        final(canvas)@ == painted(
            old(canvas)@,
            |p: int|
                in_box(
                    width as int,
                    height as int,
                    x as int,
                    y as int,
                    w as int,
                    h as int,
                    match glyph {
                        Some(rows) => Some(rows@),
                        None => None,
                    },
                    p,
                ),
            color,
        ),
{
    let ghost rows: Option<Seq<u8>> = match glyph {
        Some(rows) => Some(rows@),
        None => None,
    };
    let ghost start = canvas@;
    let mut dy: u64 = 0;
    while dy < h
        invariant
            dy <= h,
            x < 0x1_0000_0000_0000,
            y < 0x1_0000_0000_0000,
            w < 0x1_0000_0000_0000,
            h < 0x1_0000_0000_0000,
            glyph is Some ==> w == 6 && h == 12,
            rows == match glyph {
                Some(rows) => Some(rows@),
                None => None,
            },
            canvas@.len() == start.len(),
            canvas@ == painted(
                start,
                |p: int|
                    in_box(
                        width as int,
                        height as int,
                        x as int,
                        y as int,
                        w as int,
                        h as int,
                        rows,
                        p,
                    ) && p / (width as int) - y < dy,
                color,
            ),
        decreases h - dy,
    {
        let py: u64 = y + dy;
        let mut dx: u64 = 0;
        while dx < w
            invariant
                dx <= w,
                dy < h,
                py == y + dy,
                x < 0x1_0000_0000_0000,
                w < 0x1_0000_0000_0000,
                glyph is Some ==> w == 6 && h == 12,
                rows == match glyph {
                    Some(rows) => Some(rows@),
                    None => None,
                },
                canvas@.len() == start.len(),
                canvas@ == painted(
                    start,
                    |p: int|
                        in_box(
                            width as int,
                            height as int,
                            x as int,
                            y as int,
                            w as int,
                            h as int,
                            rows,
                            p,
                        ) && (p / (width as int) - y < dy || (p / (width as int) - y == dy && p % (
                        width as int) - x < dx)),
                    color,
                ),
            decreases w - dx,
        {
            let px: u64 = x + dx;
            let dot: bool = match glyph {
                Some(bits) => (bits[(dy / 2) as usize] >> ((5 - dx) as u8)) & 1 == 1,
                None => true,
            };
            let ghost goal = painted(
                start,
                |p: int|
                    in_box(
                        width as int,
                        height as int,
                        x as int,
                        y as int,
                        w as int,
                        h as int,
                        rows,
                        p,
                    ) && (p / (width as int) - y < dy || (p / (width as int) - y == dy && p % (
                    width as int) - x < dx + 1)),
                color,
            );
            if dot && px < width as u64 && py < height as u64 {
                assert(py * width + px < 0x1_0000_0000 * 0x1_0000_0000) by (nonlinear_arith)
                    requires
                        0 <= py < 0x1_0000_0000,
                        0 <= px < width < 0x1_0000_0000,
                ;
                let p: u64 = py * (width as u64) + px;
                put_pixel(canvas, p, color);
                assert forall|i: int| 0 <= i < start.len() implies canvas@[i] == goal[i] by {
                    lemma_cell(width as int, px as int, py as int, i / 4);
                }
            } else {
                assert forall|i: int| 0 <= i < start.len() implies canvas@[i] == goal[i] by {
                    if width > 0 {
                        lemma_fundamental_div_mod(i / 4, width as int);
                        if px < width {
                            lemma_cell(width as int, px as int, py as int, i / 4);
                        }
                    }
                }
            }
            dx += 1;
        }
        dy += 1;
    }
}

/// Fills the rectangle at (`x`, `y`), `w` wide and `h` high, as far as it
/// lies within the picture.
pub fn fill_rect(canvas: &mut [u8], width: u32, height: u32, x: u32, y: u32, w: u32, h: u32, color: Color)
    ensures
        final(canvas)@ == painted(
            old(canvas)@,
            |p: int|
                in_box(width as int, height as int, x as int, y as int, w as int, h as int, None, p),
            color,
        ),
{
    paint_box(canvas, width, height, x as u64, y as u64, w as u64, h as u64, None, color);
}

} // verus!
