//! The built-in font: a glyph of six rows of six dots for every character.

use vstd::prelude::*;

verus! {

/// The lowercase form of an ASCII capital letter; any other character as it
/// is.
pub open spec fn ascii_lower(ch: char) -> char {
    if 'A' <= ch <= 'Z' {
        ((ch as u8) + 32) as char
    } else {
        ch
    }
}

/// The glyph of a character: six rows from top to bottom, each holding six
/// dots in its low six bits, the leftmost dot highest. Capital letters look
/// like small ones, and a character without a glyph of its own is a box.
pub open spec fn glyph_rows(ch: char) -> Seq<u8> {
    match ascii_lower(ch) {
        'a' => seq![0b011100, 0b100010, 0b111110, 0b100010, 0b100010, 0b000000],
        'b' => seq![0b111100, 0b100010, 0b111100, 0b100010, 0b111100, 0b000000],
        'c' => seq![0b011110, 0b100000, 0b100000, 0b100000, 0b011110, 0b000000],
        'd' => seq![0b111100, 0b100010, 0b100010, 0b100010, 0b111100, 0b000000],
        'e' => seq![0b111110, 0b100000, 0b111100, 0b100000, 0b111110, 0b000000],
        'f' => seq![0b111110, 0b100000, 0b111100, 0b100000, 0b100000, 0b000000],
        'g' => seq![0b011110, 0b100000, 0b100110, 0b100010, 0b011110, 0b000000],
        'h' => seq![0b100010, 0b100010, 0b111110, 0b100010, 0b100010, 0b000000],
        'i' => seq![0b011100, 0b001000, 0b001000, 0b001000, 0b011100, 0b000000],
        'j' => seq![0b000010, 0b000010, 0b000010, 0b100010, 0b011100, 0b000000],
        'k' => seq![0b100010, 0b100100, 0b111000, 0b100100, 0b100010, 0b000000],
        'l' => seq![0b100000, 0b100000, 0b100000, 0b100000, 0b111110, 0b000000],
        'm' => seq![0b100010, 0b110110, 0b101010, 0b100010, 0b100010, 0b000000],
        'n' => seq![0b100010, 0b110010, 0b101010, 0b100110, 0b100010, 0b000000],
        'o' => seq![0b011100, 0b100010, 0b100010, 0b100010, 0b011100, 0b000000],
        'p' => seq![0b111100, 0b100010, 0b111100, 0b100000, 0b100000, 0b000000],
        'q' => seq![0b011100, 0b100010, 0b100010, 0b011100, 0b000010, 0b000000],
        'r' => seq![0b111100, 0b100010, 0b111100, 0b100100, 0b100010, 0b000000],
        's' => seq![0b011110, 0b100000, 0b011100, 0b000010, 0b111100, 0b000000],
        't' => seq![0b111110, 0b001000, 0b001000, 0b001000, 0b001000, 0b000000],
        'u' => seq![0b100010, 0b100010, 0b100010, 0b100010, 0b011100, 0b000000],
        'v' => seq![0b100010, 0b100010, 0b100010, 0b010100, 0b001000, 0b000000],
        'w' => seq![0b100010, 0b100010, 0b101010, 0b110110, 0b100010, 0b000000],
        'x' => seq![0b100010, 0b010100, 0b001000, 0b010100, 0b100010, 0b000000],
        'y' => seq![0b100010, 0b010100, 0b001000, 0b001000, 0b001000, 0b000000],
        'z' => seq![0b111110, 0b000100, 0b001000, 0b010000, 0b111110, 0b000000],
        '0' => seq![0b011100, 0b100110, 0b101010, 0b110010, 0b011100, 0b000000],
        '1' => seq![0b001000, 0b011000, 0b001000, 0b001000, 0b011100, 0b000000],
        '2' => seq![0b011100, 0b100010, 0b001100, 0b010000, 0b111110, 0b000000],
        '3' => seq![0b111100, 0b000010, 0b011100, 0b000010, 0b111100, 0b000000],
        '4' => seq![0b100010, 0b100010, 0b111110, 0b000010, 0b000010, 0b000000],
        '5' => seq![0b111110, 0b100000, 0b111100, 0b000010, 0b111100, 0b000000],
        '6' => seq![0b011100, 0b100000, 0b111100, 0b100010, 0b011100, 0b000000],
        '7' => seq![0b111110, 0b000010, 0b000100, 0b001000, 0b001000, 0b000000],
        '8' => seq![0b011100, 0b100010, 0b011100, 0b100010, 0b011100, 0b000000],
        '9' => seq![0b011100, 0b100010, 0b011110, 0b000010, 0b011100, 0b000000],
        ':' => seq![0b000000, 0b001000, 0b000000, 0b001000, 0b000000, 0b000000],
        ';' => seq![0b000000, 0b001000, 0b000000, 0b001000, 0b010000, 0b000000],
        '_' => seq![0b000000, 0b000000, 0b000000, 0b000000, 0b111110, 0b000000],
        '-' => seq![0b000000, 0b000000, 0b111110, 0b000000, 0b000000, 0b000000],
        ' ' => seq![0b000000, 0b000000, 0b000000, 0b000000, 0b000000, 0b000000],
        '.' => seq![0b000000, 0b000000, 0b000000, 0b000000, 0b001000, 0b000000],
        _ => seq![0b111110, 0b100010, 0b100010, 0b100010, 0b111110, 0b000000],
    }
}

/// The lowercase form of an ASCII capital letter.
fn to_ascii_lower(ch: char) -> (lower: char)
    ensures
        lower == ascii_lower(ch),
{
    if 'A' <= ch && ch <= 'Z' {
        let code: u8 = ch as u8;
        (code + 32) as char
    } else {
        ch
    }
}

/// The glyph of a character.
pub fn get_char_bitmap(ch: char) -> (bitmap: [u8; 6])
    ensures
        bitmap@ == glyph_rows(ch),
{
    let bitmap: [u8; 6] = match to_ascii_lower(ch) {
        'a' => [0b011100, 0b100010, 0b111110, 0b100010, 0b100010, 0b000000],
        'b' => [0b111100, 0b100010, 0b111100, 0b100010, 0b111100, 0b000000],
        'c' => [0b011110, 0b100000, 0b100000, 0b100000, 0b011110, 0b000000],
        'd' => [0b111100, 0b100010, 0b100010, 0b100010, 0b111100, 0b000000],
        'e' => [0b111110, 0b100000, 0b111100, 0b100000, 0b111110, 0b000000],
        'f' => [0b111110, 0b100000, 0b111100, 0b100000, 0b100000, 0b000000],
        'g' => [0b011110, 0b100000, 0b100110, 0b100010, 0b011110, 0b000000],
        'h' => [0b100010, 0b100010, 0b111110, 0b100010, 0b100010, 0b000000],
        'i' => [0b011100, 0b001000, 0b001000, 0b001000, 0b011100, 0b000000],
        'j' => [0b000010, 0b000010, 0b000010, 0b100010, 0b011100, 0b000000],
        'k' => [0b100010, 0b100100, 0b111000, 0b100100, 0b100010, 0b000000],
        'l' => [0b100000, 0b100000, 0b100000, 0b100000, 0b111110, 0b000000],
        'm' => [0b100010, 0b110110, 0b101010, 0b100010, 0b100010, 0b000000],
        'n' => [0b100010, 0b110010, 0b101010, 0b100110, 0b100010, 0b000000],
        'o' => [0b011100, 0b100010, 0b100010, 0b100010, 0b011100, 0b000000],
        'p' => [0b111100, 0b100010, 0b111100, 0b100000, 0b100000, 0b000000],
        'q' => [0b011100, 0b100010, 0b100010, 0b011100, 0b000010, 0b000000],
        'r' => [0b111100, 0b100010, 0b111100, 0b100100, 0b100010, 0b000000],
        's' => [0b011110, 0b100000, 0b011100, 0b000010, 0b111100, 0b000000],
        't' => [0b111110, 0b001000, 0b001000, 0b001000, 0b001000, 0b000000],
        'u' => [0b100010, 0b100010, 0b100010, 0b100010, 0b011100, 0b000000],
        'v' => [0b100010, 0b100010, 0b100010, 0b010100, 0b001000, 0b000000],
        'w' => [0b100010, 0b100010, 0b101010, 0b110110, 0b100010, 0b000000],
        'x' => [0b100010, 0b010100, 0b001000, 0b010100, 0b100010, 0b000000],
        'y' => [0b100010, 0b010100, 0b001000, 0b001000, 0b001000, 0b000000],
        'z' => [0b111110, 0b000100, 0b001000, 0b010000, 0b111110, 0b000000],
        '0' => [0b011100, 0b100110, 0b101010, 0b110010, 0b011100, 0b000000],
        '1' => [0b001000, 0b011000, 0b001000, 0b001000, 0b011100, 0b000000],
        '2' => [0b011100, 0b100010, 0b001100, 0b010000, 0b111110, 0b000000],
        '3' => [0b111100, 0b000010, 0b011100, 0b000010, 0b111100, 0b000000],
        '4' => [0b100010, 0b100010, 0b111110, 0b000010, 0b000010, 0b000000],
        '5' => [0b111110, 0b100000, 0b111100, 0b000010, 0b111100, 0b000000],
        '6' => [0b011100, 0b100000, 0b111100, 0b100010, 0b011100, 0b000000],
        '7' => [0b111110, 0b000010, 0b000100, 0b001000, 0b001000, 0b000000],
        '8' => [0b011100, 0b100010, 0b011100, 0b100010, 0b011100, 0b000000],
        '9' => [0b011100, 0b100010, 0b011110, 0b000010, 0b011100, 0b000000],
        ':' => [0b000000, 0b001000, 0b000000, 0b001000, 0b000000, 0b000000],
        ';' => [0b000000, 0b001000, 0b000000, 0b001000, 0b010000, 0b000000],
        '_' => [0b000000, 0b000000, 0b000000, 0b000000, 0b111110, 0b000000],
        '-' => [0b000000, 0b000000, 0b111110, 0b000000, 0b000000, 0b000000],
        ' ' => [0b000000, 0b000000, 0b000000, 0b000000, 0b000000, 0b000000],
        '.' => [0b000000, 0b000000, 0b000000, 0b000000, 0b001000, 0b000000],
        _ => [0b111110, 0b100010, 0b100010, 0b100010, 0b111110, 0b000000],
    };
    bitmap
}

} // verus!
