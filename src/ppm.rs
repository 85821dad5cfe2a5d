//! The plain-text PPM ("P3") image format, and the order in which an image's
//! pixels are written: rows from the top of the image to the bottom, each row
//! from left to right.
use vstd::arithmetic::div_mod::{lemma_fundamental_div_mod, lemma_fundamental_div_mod_converse};
use vstd::prelude::*;

verus! {

/// The largest channel value, written in the header.
pub const MAX_CHANNEL: u8 = 255;

/// The format's number, written after `P` in the header.
pub const FORMAT: u8 = 3;

/// ASCII `P`, space and line feed.
pub const LETTER_P: u8 = 80;
pub const SPACE: u8 = 32;
pub const NEWLINE: u8 = 10;

/// One output pixel: three channel values in `0..=255`.
#[derive(Clone, Copy, Debug, PartialEq, Eq, Structural)]
pub struct Rgb {
    pub r: u8,
    pub g: u8,
    pub b: u8,
}

/// The ASCII digit of `d`, for `d < 10`.
pub open spec fn digit(d: nat) -> u8 {
    (48 + d) as u8
}

/// The decimal text of `n`, without leading zeros.
pub open spec fn decimal(n: nat) -> Seq<u8>
    decreases n,
{
    if n < 10 {
        seq![digit(n)]
    } else {
        decimal(n / 10) + seq![digit(n % 10)]
    }
}

/// `P3`, the width and height, and the largest channel value, one per line.
pub open spec fn header_text(width: nat, height: nat) -> Seq<u8> {
    seq![LETTER_P] + decimal(FORMAT as nat) + seq![NEWLINE] + decimal(width) + seq![SPACE] + decimal(height) + seq![NEWLINE]
        + decimal(MAX_CHANNEL as nat) + seq![NEWLINE]
}

/// One pixel's line: `R G B`.
pub open spec fn pixel_text(p: Rgb) -> Seq<u8> {
    decimal(p.r as nat) + seq![SPACE] + decimal(p.g as nat) + seq![SPACE] + decimal(p.b as nat)
        + seq![NEWLINE]
}

/// The lines of `pixels`, in order.
pub open spec fn pixels_text(pixels: Seq<Rgb>) -> Seq<u8>
    decreases pixels.len(),
{
    if pixels.len() == 0 {
        seq![]
    } else {
        pixels_text(pixels.drop_last()) + pixel_text(pixels.last())
    }
}

/// The whole file: the header, then one line per pixel in output order.
pub open spec fn ppm_text(width: nat, height: nat, pixels: Seq<Rgb>) -> Seq<u8> {
    header_text(width, height) + pixels_text(pixels)
}

/// Appends the decimal text of `n`.
pub fn push_decimal(out: &mut Vec<u8>, n: u32)
    ensures
        final(out)@ == old(out)@ + decimal(n as nat),
    decreases n,
{
    if n >= 10 {
        push_decimal(out, n / 10);
    }
    out.push(48 + (n % 10) as u8);
    proof {
        assert(final(out)@ =~= old(out)@ + decimal(n as nat));
    }
}

/// The header of a `width` by `height` image.
pub fn header(width: u32, height: u32) -> (r: Vec<u8>)
    ensures
        r@ == header_text(width as nat, height as nat),
{
    let mut out: Vec<u8> = Vec::new();
    out.push(LETTER_P);
    push_decimal(&mut out, FORMAT as u32);
    out.push(NEWLINE);
    push_decimal(&mut out, width);
    out.push(SPACE);
    push_decimal(&mut out, height);
    out.push(NEWLINE);
    push_decimal(&mut out, MAX_CHANNEL as u32);
    out.push(NEWLINE);
    proof {
        assert(out@ =~= header_text(width as nat, height as nat));
    }
    out
}

/// Appends one pixel's line.
pub fn push_pixel(out: &mut Vec<u8>, p: Rgb)
    ensures
        final(out)@ == old(out)@ + pixel_text(p),
{
    push_decimal(out, p.r as u32);
    out.push(SPACE);
    push_decimal(out, p.g as u32);
    out.push(SPACE);
    push_decimal(out, p.b as u32);
    out.push(NEWLINE);
    proof {
        assert(final(out)@ =~= old(out)@ + pixel_text(p));
    }
}

/// The PPM file of a `width` by `height` image whose pixels are given in
/// output order.
pub fn encode_ppm(width: u32, height: u32, pixels: &Vec<Rgb>) -> (r: Vec<u8>)
    requires
        pixels@.len() == width as int * height as int,
    ensures
        r@ == ppm_text(width as nat, height as nat, pixels@),
{
    let mut out = header(width, height);
    let mut k: usize = 0;
    while k < pixels.len()
        invariant
            k <= pixels@.len(),
            out@ == header_text(width as nat, height as nat) + pixels_text(pixels@.take(k as int)),
        decreases pixels@.len() - k,
    {
        push_pixel(&mut out, pixels[k]);
        proof {
            let next = pixels@.take(k + 1);
            assert(next.drop_last() =~= pixels@.take(k as int));
            assert(next.last() == pixels@[k as int]);
        }
        k = k + 1;
        proof {
            assert(out@ =~= header_text(width as nat, height as nat) + pixels_text(
                pixels@.take(k as int),
            ));
        }
    }
    proof {
        assert(pixels@.take(k as int) =~= pixels@);
    }
    out
}

/// The image pixel written on line `index` of the pixel list, as its column
/// from the left and its row from the bottom.
pub open spec fn position_of(index: int, width: int, height: int) -> (int, int) {
    (index % width, height - 1 - index / width)
}

/// The line of the pixel list on which the pixel at column `col` from the left
/// and row `row` from the bottom is written.
pub open spec fn line_of(col: int, row: int, width: int, height: int) -> int {
    (height - 1 - row) * width + col
}

proof fn lemma_line_split(index: int, width: int, height: int)
    requires
        0 < width,
        0 <= index < width * height,
    ensures
        0 <= index % width < width,
        0 <= index / width < height,
        index == (index / width) * width + index % width,
{
    lemma_fundamental_div_mod(index, width);
    let q = index / width;
    assert(0 <= index % width < width);
    assert(index == width * q + index % width);
    assert(0 <= q < height) by (nonlinear_arith)
        requires
            0 < width,
            0 <= index < width * height,
            index == width * q + index % width,
            0 <= index % width < width,
    ;
    assert(width * q == q * width) by (nonlinear_arith);
}

/// Which image pixel is written on line `index`: column `index % width` from
/// the left, row `height - 1 - index / width` from the bottom, so the first
/// line holds the top-left pixel and the last the bottom-right one.
pub fn pixel_position(index: u64, width: u32, height: u32) -> (r: (u32, u32))
    requires
        0 < width,
        index < width as int * height as int,
    ensures
        (r.0 as int, r.1 as int) == position_of(index as int, width as int, height as int),
        r.0 < width,
        r.1 < height,
{
    proof {
        lemma_line_split(index as int, width as int, height as int);
    }
    let col = (index % (width as u64)) as u32;
    let rows_above = (index / (width as u64)) as u32;
    (col, height - 1 - rows_above)
}

/// The line on which the pixel at column `col` from the left and row `row`
/// from the bottom is written.
pub fn line_index(col: u32, row: u32, width: u32, height: u32) -> (r: u64)
    requires
        col < width,
        row < height,
    ensures
        r as int == line_of(col as int, row as int, width as int, height as int),
        r < width as int * height as int,
{
    let rows_above = (height - 1 - row) as u64;
    proof {
        assert(rows_above * width + col < width as int * height as int) by (nonlinear_arith)
            requires
                rows_above < height,
                col < width,
        ;
        assert(rows_above * width <= u32::MAX as int * u32::MAX as int) by (nonlinear_arith)
            requires
                rows_above <= u32::MAX,
                width <= u32::MAX,
        ;
    }
    rows_above * (width as u64) + col as u64
}

/// Every pixel of the image is written exactly once: the line of a pixel and
/// the pixel of a line are inverse to each other.
pub proof fn pixel_order_is_a_bijection(width: int, height: int, index: int, col: int, row: int)
    requires
        0 < width,
        0 < height,
        0 <= index < width * height,
        0 <= col < width,
        0 <= row < height,
    ensures
        ({
            let p = position_of(index, width, height);
            0 <= p.0 < width && 0 <= p.1 < height && line_of(p.0, p.1, width, height) == index
        }),
        0 <= line_of(col, row, width, height) < width * height,
        position_of(line_of(col, row, width, height), width, height) == (col, row),
{
    lemma_line_split(index, width, height);
    let k = line_of(col, row, width, height);
    lemma_fundamental_div_mod_converse(k, width, height - 1 - row, col);
    assert(0 <= k < width * height) by (nonlinear_arith)
        requires
            k == (height - 1 - row) * width + col,
            0 <= row < height,
            0 <= col < width,
    ;
}

} // verus!
