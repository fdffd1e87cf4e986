//! Turning a grey image into ASCII art.

use vstd::prelude::*;
use crate::text::push_char;

verus! {

/// The number of characters of the ramp, from dark to bright.
pub const RAMP_LEN: usize = 10;

/// The width of a frame, in characters.
pub const OUTPUT_WIDTH: u32 = 80;

/// The height of a frame, in rows.
pub const OUTPUT_HEIGHT: u32 = 40;

/// The ramp: ` .:-=+*#%@`.
pub open spec fn ramp_spec(i: int) -> char {
    if i <= 0 {
        ' '
    } else if i == 1 {
        '.'
    } else if i == 2 {
        ':'
    } else if i == 3 {
        '-'
    } else if i == 4 {
        '='
    } else if i == 5 {
        '+'
    } else if i == 6 {
        '*'
    } else if i == 7 {
        '#'
    } else if i == 8 {
        '%'
    } else {
        '@'
    }
}

/// The character of the ramp at position `i`.
pub fn ramp(i: usize) -> (c: char)
    requires
        i < RAMP_LEN,
    ensures
        c == ramp_spec(i as int),
{
    if i == 0 {
        ' '
    } else if i == 1 {
        '.'
    } else if i == 2 {
        ':'
    } else if i == 3 {
        '-'
    } else if i == 4 {
        '='
    } else if i == 5 {
        '+'
    } else if i == 6 {
        '*'
    } else if i == 7 {
        '#'
    } else if i == 8 {
        '%'
    } else {
        '@'
    }
}

/// The character for a luminance: `idx = intensity * (N - 1) / 255`.
pub open spec fn luma_char(l: u8) -> char {
    ramp_spec((l as int * (RAMP_LEN - 1)) / 255)
}

/// Row `y` of the art: one character per pixel, then a newline.
pub open spec fn ascii_row(luma: Seq<u8>, width: nat, y: nat) -> Seq<char> {
    Seq::new(width, |x: int| luma_char(luma[y * width + x])).push('\n')
}

/// The first `rows` rows of the art.
pub open spec fn ascii_art(luma: Seq<u8>, width: nat, rows: nat) -> Seq<char>
    decreases rows,
{
    if rows == 0 {
        Seq::empty()
    } else {
        ascii_art(luma, width, (rows - 1) as nat) + ascii_row(luma, width, (rows - 1) as nat)
    }
}

/// The character for one luminance value.
pub fn luma_to_char(l: u8) -> (c: char)
    ensures
        c == luma_char(l),
{
    let v = l as usize;
    assert((v * 9) / 255 < 10) by (nonlinear_arith)
        requires
            v <= 255,
    ;
    ramp((v * (RAMP_LEN - 1)) / 255)
}

/// ASCII art of a grey image stored row by row, `width` pixels a row.
pub fn to_ascii(luma: &[u8], width: usize, height: usize) -> (r: String)
    requires
        luma@.len() == width * height,
    ensures
        r@ == ascii_art(luma@, width as nat, height as nat),
{
    let n = luma.len();
    let mut out = String::new();
    let mut y: usize = 0;
    while y < height
        invariant
            y <= height,
            luma@.len() == width * height,
            n == luma@.len(),
            out@ == ascii_art(luma@, width as nat, y as nat),
        decreases height - y,
    {
        let ghost start = out@;
        let mut x: usize = 0;
        while x < width
            invariant
                x <= width,
                y < height,
                luma@.len() == width * height,
                n == luma@.len(),
                out@ == start + Seq::new(x as nat, |i: int| luma_char(luma@[y * width + i])),
            decreases width - x,
        {
            proof {
                assert(y * width + x < width * height) by (nonlinear_arith)
                    requires
                        y < height,
                        x < width,
                ;
                assert(y * width + x < n);
            }
            let c = luma_to_char(luma[y * width + x]);
            push_char(&mut out, c);
            x = x + 1;
            assert(out@ =~= start + Seq::new(x as nat, |i: int| luma_char(luma@[y * width + i])));
        }
        push_char(&mut out, '\n');
        y = y + 1;
        assert(out@ =~= ascii_art(luma@, width as nat, y as nat));
    }
    out
}

} // verus!
