//! Fixed-point decimal digits, taken by truncation from a reading's integer
//! part and from its value scaled by ten.

use vstd::prelude::*;

verus! {

/// The widest integer field the formatter accepts: ten to the power of
/// `MAX_WIDTH - 1` must fit in a `u32`.
pub const MAX_WIDTH: usize = 9;

/// A reading as the formatter sees it: the value truncated toward zero, and
/// the value times ten truncated toward zero.
#[derive(Clone, Copy, Debug, PartialEq, Eq)]
pub struct Truncated {
    pub whole: i32,
    pub tenths: i32,
}

pub open spec fn pow10(k: nat) -> int
    decreases k,
{
    if k == 0 {
        1
    } else {
        10 * pow10((k - 1) as nat)
    }
}

/// Division that rounds toward zero, as `/` does on a signed machine integer.
pub open spec fn trunc_div(n: int, d: int) -> int {
    if n >= 0 {
        n / d
    } else {
        -((-n) / d)
    }
}

/// The remainder that goes with `trunc_div`: it takes the sign of `n`.
pub open spec fn trunc_rem(n: int, d: int) -> int {
    if n >= 0 {
        n % d
    } else {
        -((-n) % d)
    }
}

/// The decimal digit of `n` at `place` (0 for the ones), computed as
/// `(n / 10^place) % 10` with truncating arithmetic; negative for negative `n`.
pub open spec fn digit_at(n: int, place: nat) -> int {
    trunc_rem(trunc_div(n, pow10(place)), 10)
}

/// The display code of a digit: its low byte with the bits of ASCII `'0'` set.
/// For `0..=9` this is the ASCII digit; for a negative digit it is no digit.
pub open spec fn glyph(d: int) -> u8 {
    (d as u8) | 0x30u8
}

/// The display codes of `v` with `width` integer digits, most significant
/// first, followed by the tenths digit.
pub open spec fn fixed_glyphs(v: Truncated, width: nat) -> Seq<u8> {
    Seq::new(width, |i: int| glyph(digit_at(v.whole as int, (width - 1 - i) as nat))).push(
        glyph(digit_at(v.tenths as int, 0)),
    )
}

pub open spec fn ascii_digit(d: int) -> u8 {
    (48 + d) as u8
}

pub proof fn lemma_pow10_small(k: nat)
    requires
        k <= 9,
    ensures
        1 <= pow10(k) <= 1_000_000_000,
{
    reveal_with_fuel(pow10, 10);
}

/// A digit in `0..=9` is shown as its ASCII character.
pub proof fn lemma_glyph_digit(d: int)
    requires
        0 <= d <= 9,
    ensures
        glyph(d) == ascii_digit(d),
        glyph(d) == 48 + d,
{
    let b: u8 = d as u8;
    assert(b == d);
    assert(b < 10u8 ==> b | 0x30u8 == b + 0x30u8) by (bit_vector);
}

fn pow10_u32(k: usize) -> (r: u32)
    requires
        k <= MAX_WIDTH,
    ensures
        r == pow10(k as nat),
{
    let mut r: u32 = 1;
    let mut i: usize = 0;
    while i < k
        invariant
            i <= k,
            k <= MAX_WIDTH,
            r == pow10(i as nat),
        decreases k - i,
    {
        proof {
            lemma_pow10_small((i + 1) as nat);
        }
        r = r * 10;
        i = i + 1;
    }
    r
}

/// The digit of `n` at the place whose weight is `weight`, with the sign and
/// truncation of machine division.
fn digit_of(n: i32, weight: u32) -> (r: i32)
    requires
        weight > 0,
    ensures
        r == trunc_rem(trunc_div(n as int, weight as int), 10),
        -9 <= r <= 9,
{
    let m: i64 = n as i64;
    if m >= 0 {
        let q: u64 = (m as u64) / (weight as u64);
        (q % 10) as i32
    } else {
        let q: u64 = ((-m) as u64) / (weight as u64);
        -((q % 10) as i32)
    }
}

/// The display code of a digit, as `d as u8 | b'0'`.
pub fn glyph_of(d: i32) -> (r: u8)
    ensures
        r == glyph(d as int),
{
    (d as u8) | 0x30u8
}

/// The display codes of `v` with `width` integer digits, most significant
/// first, and one fractional digit. No rounding: the digits are truncated.
pub fn format_fixed(v: Truncated, width: usize) -> (r: Vec<u8>)
    requires
        width <= MAX_WIDTH,
    ensures
        r@ == fixed_glyphs(v, width as nat),
        r@.len() == width + 1,
{
    let mut r: Vec<u8> = Vec::new();
    let mut i: usize = 0;
    while i < width
        invariant
            i <= width,
            width <= MAX_WIDTH,
            r@ == Seq::new(
                i as nat,
                |j: int| glyph(digit_at(v.whole as int, (width - 1 - j) as nat)),
            ),
        decreases width - i,
    {
        let place: usize = width - 1 - i;
        proof {
            lemma_pow10_small(place as nat);
        }
        let d = digit_of(v.whole, pow10_u32(place));
        r.push(glyph_of(d));
        assert(r@ =~= Seq::new(
            (i + 1) as nat,
            |j: int| glyph(digit_at(v.whole as int, (width - 1 - j) as nat)),
        ));
        i = i + 1;
    }
    let f = digit_of(v.tenths, 1);
    r.push(glyph_of(f));
    assert(r@ =~= fixed_glyphs(v, width as nat));
    r
}

/// The temperature and humidity form: two integer digits and the tenths.
pub fn format_two(v: Truncated) -> (r: Vec<u8>)
    ensures
        r@ == fixed_glyphs(v, 2),
{
    format_fixed(v, 2)
}

/// The pressure form: four integer digits and the tenths.
pub fn format_four(v: Truncated) -> (r: Vec<u8>)
    ensures
        r@ == fixed_glyphs(v, 4),
{
    format_fixed(v, 4)
}

/// For a non-negative reading whose integer part is at most 99, the two-digit
/// form holds the tens and ones of the integer part and the ones of the value
/// scaled by ten, each as its ASCII digit.
pub proof fn lemma_two_digit_decimal(v: Truncated)
    requires
        0 <= v.whole <= 99,
        0 <= v.tenths,
    ensures
        fixed_glyphs(v, 2) == seq![
            ascii_digit((v.whole as int / 10) % 10),
            ascii_digit(v.whole as int % 10),
            ascii_digit(v.tenths as int % 10),
        ],
{
    reveal_with_fuel(pow10, 3);
    let n = v.whole as int;
    lemma_glyph_digit((n / 10) % 10);
    lemma_glyph_digit(n % 10);
    lemma_glyph_digit((v.tenths as int) % 10);
    assert(fixed_glyphs(v, 2) =~= seq![
        ascii_digit((v.whole as int / 10) % 10),
        ascii_digit(v.whole as int % 10),
        ascii_digit(v.tenths as int % 10),
    ]);
}

/// For a non-negative reading whose integer part is at most 9999, the
/// four-digit form holds the base-ten digits of the integer part, most
/// significant first, then the ones of the value scaled by ten; read back as
/// digits, the first four give the integer part.
pub proof fn lemma_four_digit_decimal(v: Truncated)
    requires
        0 <= v.whole <= 9999,
        0 <= v.tenths,
    ensures
        fixed_glyphs(v, 4) == seq![
            ascii_digit((v.whole as int / 1000) % 10),
            ascii_digit((v.whole as int / 100) % 10),
            ascii_digit((v.whole as int / 10) % 10),
            ascii_digit(v.whole as int % 10),
            ascii_digit(v.tenths as int % 10),
        ],
        1000 * (fixed_glyphs(v, 4)[0] - 48) + 100 * (fixed_glyphs(v, 4)[1] - 48) + 10 * (
        fixed_glyphs(v, 4)[2] - 48) + (fixed_glyphs(v, 4)[3] - 48) == v.whole,
{
    reveal_with_fuel(pow10, 5);
    let n = v.whole as int;
    lemma_glyph_digit((n / 1000) % 10);
    lemma_glyph_digit((n / 100) % 10);
    lemma_glyph_digit((n / 10) % 10);
    lemma_glyph_digit(n % 10);
    lemma_glyph_digit((v.tenths as int) % 10);
    assert(fixed_glyphs(v, 4) =~= seq![
        ascii_digit((v.whole as int / 1000) % 10),
        ascii_digit((v.whole as int / 100) % 10),
        ascii_digit((v.whole as int / 10) % 10),
        ascii_digit(v.whole as int % 10),
        ascii_digit(v.tenths as int % 10),
    ]);
    assert(1000 * ((n / 1000) % 10) + 100 * ((n / 100) % 10) + 10 * ((n / 10) % 10) + n % 10
        == n) by (nonlinear_arith)
        requires
            0 <= n <= 9999,
    ;
}

/// Formatting depends on the reading and the width alone: equal readings give
/// equal digit sequences.
pub proof fn lemma_format_deterministic(a: Truncated, b: Truncated, width: nat)
    requires
        a == b,
    ensures
        fixed_glyphs(a, width) == fixed_glyphs(b, width),
{
}

} // verus!
