//! What the overlays show: hint boxes, the input display, the mode
//! indicator, the help bar and the cross at the scroll target.

use crate::canvas::{fill_all, in_box, paint_box, painted, put_pixel, Color};
use crate::config::{color_of, parse_color, ColorConfig};
use crate::font::{get_char_bitmap, glyph_rows};
use crate::hints::{filter_by_prefix, referents, with_prefix, HintedElement};
use crate::selection::{Modifiers, SelectionState};
use crate::text::{chars_of, lowercase_of};
use vstd::arithmetic::div_mod::{lemma_fundamental_div_mod, lemma_fundamental_div_mod_converse};
use vstd::prelude::*;
use vstd::string::StringExecFns;
use vstd::utf8::encode_utf8;

verus! {

/// The distance from one character of a text to the next, in pixels.
pub const CHAR_WIDTH: u32 = 8;

/// The height of a line of text, in pixels.
pub const CHAR_HEIGHT: u32 = 12;

/// The buffer after the glyph of `ch` has been drawn with its top left corner
/// at (`x`, `y`), fully opaque.
pub open spec fn glyph_painted(
    canvas: Seq<u8>,
    width: int,
    height: int,
    x: int,
    y: int,
    ch: char,
    rgb: (u8, u8, u8),
) -> Seq<u8> {
    painted(
        canvas,
        |p: int| in_box(width, height, x, y, 6, 12, Some(glyph_rows(ch)), p),
        (rgb.0, rgb.1, rgb.2, 255u8),
    )
}

/// The buffer after `text` has been drawn from (`x`, `y`) on, one character
/// every eight pixels. The first `split` characters are drawn in `early`, the
/// others in `late`.
pub open spec fn text_painted(
    canvas: Seq<u8>,
    width: int,
    height: int,
    x: int,
    y: int,
    text: Seq<char>,
    split: int,
    early: (u8, u8, u8),
    late: (u8, u8, u8),
) -> Seq<u8>
    decreases text.len(),
{
    if text.len() == 0 {
        canvas
    } else {
        let last = text.len() - 1;
        glyph_painted(
            text_painted(canvas, width, height, x, y, text.drop_last(), split, early, late),
            width,
            height,
            x + CHAR_WIDTH * last,
            y,
            text[last],
            if last < split {
                early
            } else {
                late
            },
        )
    }
}

/// Draws the glyph of `ch` with its top left corner at (`x`, `y`).
fn draw_glyph(canvas: &mut [u8], width: u32, height: u32, x: u64, y: u64, ch: char, rgb: (u8, u8, u8))
    requires
        x < 0x1_0000_0000_0000,
        y < 0x1_0000_0000_0000,
    ensures
        final(canvas)@ == glyph_painted(
            old(canvas)@,
            width as int,
            height as int,
            x as int,
            y as int,
            ch,
            rgb,
        ),
{
    let bitmap = get_char_bitmap(ch);
    paint_box(canvas, width, height, x, y, 6, 12, Some(bitmap), (rgb.0, rgb.1, rgb.2, 255));
}

/// Draws one character with its top left corner at (`x`, `y`), in the
/// colour given by `r`, `g` and `b`. Every dot of the glyph is one pixel wide
/// and two high; what falls outside the picture is left out.
pub fn draw_char(
    canvas: &mut [u8],
    width: u32,
    height: u32,
    x: u32,
    y: u32,
    ch: char,
    r: u8,
    g: u8,
    b: u8,
)
    ensures
        final(canvas)@ == glyph_painted(
            old(canvas)@,
            width as int,
            height as int,
            x as int,
            y as int,
            ch,
            (r, g, b),
        ),
{
    draw_glyph(canvas, width, height, x as u64, y as u64, ch, (r, g, b));
}

/// A glyph that lies to the right of the picture leaves it as it is.
proof fn lemma_glyph_outside(
    canvas: Seq<u8>,
    width: int,
    height: int,
    x: int,
    y: int,
    ch: char,
    rgb: (u8, u8, u8),
)
    requires
        0 <= width <= x,
    ensures
        glyph_painted(canvas, width, height, x, y, ch, rgb) == canvas,
{
    assert forall|i: int| 0 <= i < canvas.len() implies glyph_painted(
        canvas,
        width,
        height,
        x,
        y,
        ch,
        rgb,
    )[i] == canvas[i] by {
        if width > 0 {
            lemma_fundamental_div_mod(i / 4, width);
        }
    }
}

/// Draws `text` from (`x`, `y`) on, the first `split` characters in `early`
/// and the others in `late`.
pub fn draw_text(
    canvas: &mut [u8],
    width: u32,
    height: u32,
    x: u64,
    y: u64,
    text: &str,
    split: usize,
    early: (u8, u8, u8),
    late: (u8, u8, u8),
)
    requires
        x < 0x1_0000_0000_0000,
        y < 0x1_0000_0000_0000,
    ensures
        final(canvas)@ == text_painted(
            old(canvas)@,
            width as int,
            height as int,
            x as int,
            y as int,
            text@,
            split as int,
            early,
            late,
        ),
{
    let chars = chars_of(text);
    let ghost start = canvas@;
    let mut i: usize = 0;
    let mut at: u64 = x;
    while i < chars.len()
        invariant
            i <= chars.len(),
            chars@ == text@,
            y < 0x1_0000_0000_0000,
            at < 0x1_0000_0000_0000,
            at == x + CHAR_WIDTH * i || (at >= width && x + CHAR_WIDTH * i >= at),
            canvas@ == text_painted(
                start,
                width as int,
                height as int,
                x as int,
                y as int,
                chars@.take(i as int),
                split as int,
                early,
                late,
            ),
        decreases chars.len() - i,
    {
        let rgb = if i < split {
            early
        } else {
            late
        };
        let ghost before = canvas@;
        assert(chars@.take(i + 1).drop_last() =~= chars@.take(i as int));
        if at < width as u64 {
            draw_glyph(canvas, width, height, at, y, chars[i], rgb);
            at = at + CHAR_WIDTH as u64;
        } else {
            proof {
                lemma_glyph_outside(
                    before,
                    width as int,
                    height as int,
                    x + CHAR_WIDTH * i,
                    y as int,
                    chars[i as int],
                    rgb,
                );
            }
        }
        i += 1;
    }
    assert(chars@.take(chars.len() as int) =~= chars@);
}

/// The red, green and blue of a colour.
pub open spec fn rgb_of(color: Color) -> (u8, u8, u8) {
    (color.0, color.1, color.2)
}

/// The length of a text in bytes, as far as 32 bits hold it.
pub open spec fn byte_len32(text: Seq<char>) -> int {
    ((encode_utf8(text).len() as usize) as u32) as int
}

/// The buffer after the hint of an element has been drawn: a box in `bg` at
/// the element's corner, wide enough for the label with `padding` on every
/// side, and in it the label, the first `prefix_len` characters in `matched`
/// and the others in `text`.
pub open spec fn hint_painted(
    canvas: Seq<u8>,
    width: int,
    height: int,
    element: HintedElement,
    prefix_len: int,
    padding: int,
    bg: Color,
    text: Color,
    matched: Color,
) -> Seq<u8> {
    let x = (element.element.x as u32) as int;
    let y = (element.element.y as u32) as int;
    text_painted(
        painted(
            canvas,
            |p: int|
                in_box(
                    width,
                    height,
                    x,
                    y,
                    padding * 2 + byte_len32(element.hint@) * CHAR_WIDTH,
                    padding * 2 + CHAR_HEIGHT,
                    None,
                    p,
                ),
            bg,
        ),
        width,
        height,
        x + padding,
        y + padding,
        element.hint@,
        prefix_len,
        rgb_of(matched),
        rgb_of(text),
    )
}

/// Draws the hint of an element at the element's corner.
pub fn draw_hint(
    canvas: &mut [u8],
    width: u32,
    height: u32,
    elem: &HintedElement,
    prefix_len: usize,
    padding: u32,
    hint_bg_color: Color,
    hint_text_color: Color,
    hint_matched_color: Color,
)
    ensures
        final(canvas)@ == hint_painted(
            old(canvas)@,
            width as int,
            height as int,
            *elem,
            prefix_len as int,
            padding as int,
            hint_bg_color,
            hint_text_color,
            hint_matched_color,
        ),
{
    let left: u32 = #[verifier::truncate]
    (elem.element.x as u32);
    let top: u32 = #[verifier::truncate]
    (elem.element.y as u32);
    let label_len: u32 = #[verifier::truncate]
    (elem.hint.as_str().len() as u32);
    let x: u64 = left as u64;
    let y: u64 = top as u64;
    let box_width: u64 = (padding as u64) * 2 + (label_len as u64) * 8;
    let box_height: u64 = (padding as u64) * 2 + 12;
    paint_box(canvas, width, height, x, y, box_width, box_height, None, hint_bg_color);
    assert(canvas@ =~= painted(
        old(canvas)@,
        |p: int|
            in_box(
                width as int,
                height as int,
                (elem.element.x as u32) as int,
                (elem.element.y as u32) as int,
                padding * 2 + byte_len32(elem.hint@) * CHAR_WIDTH,
                padding * 2 + CHAR_HEIGHT,
                None,
                p,
            ),
        hint_bg_color,
    ));
    draw_text(
        canvas,
        width,
        height,
        x + padding as u64,
        y + padding as u64,
        elem.hint.as_str(),
        prefix_len,
        (hint_matched_color.0, hint_matched_color.1, hint_matched_color.2),
        (hint_text_color.0, hint_text_color.1, hint_text_color.2),
    );
}

/// The buffer after a box in `bg` has been drawn at (`x`, `y`) and `text`
/// in it, `dx` to the right and `dy` below the box's corner.
pub open spec fn label_painted(
    canvas: Seq<u8>,
    width: int,
    height: int,
    x: int,
    y: int,
    w: int,
    h: int,
    dx: int,
    dy: int,
    text: Seq<char>,
    bg: Color,
    fg: Color,
) -> Seq<u8> {
    text_painted(
        painted(canvas, |p: int| in_box(width, height, x, y, w, h, None, p), bg),
        width,
        height,
        x + dx,
        y + dy,
        text,
        0,
        rgb_of(fg),
        rgb_of(fg),
    )
}

/// Draws a box with a text in it.
fn draw_label(
    canvas: &mut [u8],
    width: u32,
    height: u32,
    x: u32,
    y: u32,
    w: u32,
    h: u32,
    dx: u32,
    dy: u32,
    text: &str,
    bg: Color,
    fg: Color,
)
    ensures
        final(canvas)@ == label_painted(
            old(canvas)@,
            width as int,
            height as int,
            x as int,
            y as int,
            w as int,
            h as int,
            dx as int,
            dy as int,
            text@,
            bg,
            fg,
        ),
{
    paint_box(canvas, width, height, x as u64, y as u64, w as u64, h as u64, None, bg);
    assert(canvas@ =~= painted(
        old(canvas)@,
        |p: int|
            in_box(width as int, height as int, x as int, y as int, w as int, h as int, None, p),
        bg,
    ));
    draw_text(
        canvas,
        width,
        height,
        x as u64 + dx as u64,
        y as u64 + dy as u64,
        text,
        0,
        (fg.0, fg.1, fg.2),
        (fg.0, fg.1, fg.2),
    );
}

/// What the input display shows for what has been typed.
pub open spec fn input_line(input: Seq<char>) -> Seq<char> {
    "Input: "@ + input + "_"@
}

/// Draws the input display: what has been typed so far, in a box in the top
/// left corner.
pub fn draw_input_display(
    canvas: &mut [u8],
    width: u32,
    height: u32,
    input_buffer: &str,
    bg_color: Color,
    text_color: Color,
)
    ensures
        final(canvas)@ == label_painted(
            old(canvas)@,
            width as int,
            height as int,
            10,
            10,
            250,
            30,
            10,
            8,
            input_line(input_buffer@),
            bg_color,
            text_color,
        ),
{
    let mut text = String::from_str("Input: ");
    text.append(input_buffer);
    text.append("_");
    draw_label(
        canvas,
        width,
        height,
        10,
        10,
        250,
        30,
        10,
        8,
        text.as_str(),
        bg_color,
        text_color,
    );
}

/// Draws the mode indicator: a text in a box beside the input display.
pub fn draw_modifier_indicator(
    canvas: &mut [u8],
    width: u32,
    height: u32,
    mode_text: &str,
    bg_color: Color,
    text_color: Color,
)
    ensures
        final(canvas)@ == label_painted(
            old(canvas)@,
            width as int,
            height as int,
            270,
            10,
            180,
            25,
            10,
            6,
            mode_text@,
            bg_color,
            text_color,
        ),
{
    draw_label(canvas, width, height, 270, 10, 180, 25, 10, 6, mode_text, bg_color, text_color);
}

/// The colour of the help bar.
pub open spec fn help_bar_color() -> Color {
    (40u8, 40u8, 40u8, 230u8)
}

/// The smaller of two numbers.
pub open spec fn least(a: int, b: int) -> int {
    if a <= b {
        a
    } else {
        b
    }
}

/// Draws the help bar: a dark bar along the top, at most 400 pixels wide.
pub fn draw_help_bar(canvas: &mut [u8], width: u32, height: u32)
    ensures
        final(canvas)@ == painted(
            old(canvas)@,
            |p: int| in_box(width as int, height as int, 0, 0, least(400, width as int), 25, None, p),
            help_bar_color(),
        ),
{
    let box_width: u32 = if width < 400 {
        width
    } else {
        400
    };
    paint_box(canvas, width, height, 0, 0, box_width as u64, 25, None, (40, 40, 40, 230));
}

/// What the mode indicator says for the held modifier keys.
pub open spec fn mode_label(modifiers: Modifiers) -> Seq<char> {
    if modifiers.shift {
        "Mode: Right-Click"@
    } else if modifiers.ctrl {
        "Mode: Middle-Click"@
    } else {
        "Mode: Click"@
    }
}

/// What the mode indicator says for the held modifier keys.
pub fn mode_text(modifiers: Modifiers) -> (text: &'static str)
    ensures
        text@ == mode_label(modifiers),
{
    if modifiers.shift {
        "Mode: Right-Click"
    } else if modifiers.ctrl {
        "Mode: Middle-Click"
    } else {
        "Mode: Click"
    }
}

/// The colours of the selection overlay.
#[derive(Debug, Clone, Copy, PartialEq, Eq)]
pub struct Palette {
    pub background: Color,
    pub hint_bg: Color,
    pub hint_text: Color,
    pub hint_matched: Color,
    pub input_bg: Color,
    pub input_text: Color,
}

/// A colour as four mathematical integers.
pub open spec fn color_ints(color: Color) -> (int, int, int, int) {
    (color.0 as int, color.1 as int, color.2 as int, color.3 as int)
}

impl Palette {
    /// Reads the configured colours.
    pub fn from_config(colors: &ColorConfig) -> (palette: Palette)
        ensures
            color_ints(palette.background) == color_of(encode_utf8(colors.background@)),
            color_ints(palette.hint_bg) == color_of(encode_utf8(colors.hint_bg@)),
            color_ints(palette.hint_text) == color_of(encode_utf8(colors.hint_text@)),
            color_ints(palette.hint_matched) == color_of(encode_utf8(colors.hint_text_matched@)),
            color_ints(palette.input_bg) == color_of(encode_utf8(colors.input_bg@)),
            color_ints(palette.input_text) == color_of(encode_utf8(colors.input_text@)),
    {
        Palette {
            background: parse_color(colors.background.as_str()),
            hint_bg: parse_color(colors.hint_bg.as_str()),
            hint_text: parse_color(colors.hint_text.as_str()),
            hint_matched: parse_color(colors.hint_text_matched.as_str()),
            input_bg: parse_color(colors.input_bg.as_str()),
            input_text: parse_color(colors.input_text.as_str()),
        }
    }
}

/// The buffer after the hints of `elements` have been drawn, one after the
/// other.
pub open spec fn hints_painted(
    canvas: Seq<u8>,
    width: int,
    height: int,
    elements: Seq<HintedElement>,
    prefix_len: int,
    padding: int,
    palette: Palette,
) -> Seq<u8>
    decreases elements.len(),
{
    if elements.len() == 0 {
        canvas
    } else {
        hint_painted(
            hints_painted(
                canvas,
                width,
                height,
                elements.drop_last(),
                prefix_len,
                padding,
                palette,
            ),
            width,
            height,
            elements.last(),
            prefix_len,
            padding,
            palette.hint_bg,
            palette.hint_text,
            palette.hint_matched,
        )
    }
}

/// What the selection overlay shows: the background, the hints of the
/// elements that the input can still mean, the input display and the mode
/// indicator. A picture without width or height stays as it is.
pub open spec fn overlay_painted(
    canvas: Seq<u8>,
    width: int,
    height: int,
    elements: Seq<HintedElement>,
    input: Seq<char>,
    modifiers: Modifiers,
    padding: int,
    palette: Palette,
) -> Seq<u8> {
    if width == 0 || height == 0 {
        canvas
    } else {
        label_painted(
            label_painted(
                hints_painted(
                    painted(canvas, |p: int| true, palette.background),
                    width,
                    height,
                    with_prefix(elements, lowercase_of(input)),
                    (encode_utf8(input).len() as usize) as int,
                    padding,
                    palette,
                ),
                width,
                height,
                10,
                10,
                250,
                30,
                10,
                8,
                input_line(input),
                palette.input_bg,
                palette.input_text,
            ),
            width,
            height,
            270,
            10,
            180,
            25,
            10,
            6,
            mode_label(modifiers),
            palette.input_bg,
            palette.input_text,
        )
    }
}

/// Draws the selection overlay for the state of a session.
pub fn render_overlay(
    canvas: &mut [u8],
    width: u32,
    height: u32,
    state: &SelectionState,
    padding: u32,
    palette: &Palette,
)
    ensures
        final(canvas)@ == overlay_painted(
            old(canvas)@,
            width as int,
            height as int,
            state.elements@,
            state.input_buffer@,
            state.modifiers,
            padding as int,
            *palette,
        ),
{
    if width == 0 || height == 0 {
        return ;
    }
    fill_all(canvas, palette.background);
    let filtered = filter_by_prefix(state.elements.as_slice(), state.input_buffer.as_str());
    let prefix_len: usize = state.input_buffer.as_str().len();
    let ghost cleared = canvas@;
    let ghost shown = referents(filtered@);
    let mut i: usize = 0;
    while i < filtered.len()
        invariant
            i <= filtered.len(),
            shown == referents(filtered@),
            canvas@ == hints_painted(
                cleared,
                width as int,
                height as int,
                shown.take(i as int),
                prefix_len as int,
                padding as int,
                *palette,
            ),
        decreases filtered.len() - i,
    {
        assert(shown.take(i + 1).drop_last() =~= shown.take(i as int));
        draw_hint(
            canvas,
            width,
            height,
            filtered[i],
            prefix_len,
            padding,
            palette.hint_bg,
            palette.hint_text,
            palette.hint_matched,
        );
        i += 1;
    }
    assert(shown.take(filtered.len() as int) =~= shown);
    draw_input_display(
        canvas,
        width,
        height,
        state.input_buffer.as_str(),
        palette.input_bg,
        palette.input_text,
    );
    draw_modifier_indicator(
        canvas,
        width,
        height,
        mode_text(state.modifiers),
        palette.input_bg,
        palette.input_text,
    );
}

/// The colour behind the scroll overlay.
pub open spec fn veil_color() -> Color {
    (0u8, 0u8, 0u8, 50u8)
}

/// The colour of the cross at the scroll target.
pub open spec fn cross_color() -> Color {
    (0u8, 255u8, 0u8, 255u8)
}

/// `v - 20`, but not below 0.
pub open spec fn back20(v: int) -> int {
    if v >= 20 {
        v - 20
    } else {
        0
    }
}

/// Whether pixel `p` is `x` pixels after the start of one of the rows from
/// `first` up to, but not including, `end`. Where `x` is not less than the
/// width, that pixel lies in a later row.
pub open spec fn on_column(width: int, x: int, first: int, end: int, p: int) -> bool {
    &&& width > 0
    &&& p >= x
    &&& (p - x) % width == 0
    &&& first <= (p - x) / width < end
}

/// What the scroll overlay shows: a veil over everything, a cross at the
/// target that reaches 20 pixels to every side as far as the picture goes,
/// and the help bar. A picture without width or height stays as it is.
pub open spec fn scroll_painted(
    canvas: Seq<u8>,
    width: int,
    height: int,
    target_x: i32,
    target_y: i32,
) -> Seq<u8> {
    let tx = (target_x as u32) as int;
    let ty = (target_y as u32) as int;
    if width == 0 || height == 0 {
        canvas
    } else {
        painted(
            painted(
                painted(
                    painted(canvas, |p: int| true, veil_color()),
                    |p: int|
                        in_box(
                            width,
                            height,
                            back20(tx),
                            ty,
                            least(tx + 20, width - 1) - back20(tx) + 1,
                            1,
                            None,
                            p,
                        ),
                    cross_color(),
                ),
                |p: int| on_column(width, tx, back20(ty), least(ty + 20, height - 1) + 1, p),
                cross_color(),
            ),
            |p: int| in_box(width, height, 0, 0, least(400, width), 25, None, p),
            help_bar_color(),
        )
    }
}

/// Draws the scroll overlay around the target.
pub fn render_scroll(canvas: &mut [u8], width: u32, height: u32, target_x: i32, target_y: i32)
    ensures
        final(canvas)@ == scroll_painted(
            old(canvas)@,
            width as int,
            height as int,
            target_x,
            target_y,
        ),
{
    if width == 0 || height == 0 {
        return ;
    }
    let tx: u32 = #[verifier::truncate]
    (target_x as u32);
    let ty: u32 = #[verifier::truncate]
    (target_y as u32);
    fill_all(canvas, (0, 0, 0, 50));

    let left: u64 = if tx >= 20 {
        (tx - 20) as u64
    } else {
        0
    };
    let right: u64 = if tx as u64 + 20 < (width - 1) as u64 {
        tx as u64 + 20
    } else {
        (width - 1) as u64
    };
    let across: u64 = if left <= right {
        right - left + 1
    } else {
        0
    };
    paint_box(canvas, width, height, left, ty as u64, across, 1, None, (0, 255, 0, 255));
    let ghost crossed = canvas@;

    let top: u64 = if ty >= 20 {
        (ty - 20) as u64
    } else {
        0
    };
    let bottom: u64 = if ty as u64 + 20 < (height - 1) as u64 {
        ty as u64 + 20
    } else {
        (height - 1) as u64
    };
    let mut y: u64 = top;
    while y <= bottom
        invariant
            width > 0,
            top <= y <= bottom + 1 || (top > bottom && y == top),
            bottom < height,
            canvas@.len() == crossed.len(),
            canvas@ == painted(
                crossed,
                |p: int| on_column(width as int, tx as int, top as int, y as int, p),
                cross_color(),
            ),
        decreases bottom + 1 - y,
    {
        assert(y * width + tx < 0x1_0000_0000 * 0x1_0000_0000) by (nonlinear_arith)
            requires
                0 <= y < 0x1_0000_0000,
                0 < width < 0x1_0000_0000,
                0 <= tx < 0x1_0000_0000,
        ;
        let p: u64 = y * (width as u64) + tx as u64;
        let ghost goal = painted(
            crossed,
            |q: int| on_column(width as int, tx as int, top as int, y + 1, q),
            cross_color(),
        );
        put_pixel(canvas, p, (0, 255, 0, 255));
        assert forall|i: int| 0 <= i < crossed.len() implies canvas@[i] == goal[i] by {
            let q = i / 4;
            if q >= tx {
                lemma_fundamental_div_mod(q - tx, width as int);
                assert(width * ((q - tx) / (width as int)) == ((q - tx) / (width as int)) * width)
                    by (nonlinear_arith);
                if q == p {
                    lemma_fundamental_div_mod_converse(q - tx, width as int, y as int, 0);
                }
            }
        }
        y += 1;
    }
    draw_help_bar(canvas, width, height);
}

} // verus!
