//! What one render pass writes to the character display, in order: for each
//! field, a cursor move to its fixed cell address, its label, then its value
//! and unit, one character code at a time.

use vstd::prelude::*;

use crate::digits::{fixed_glyphs, format_four, format_two, Truncated};

verus! {

/// Cell address, in the controller's own addressing, of the temperature line.
pub const TEMPERATURE_ADDRESS: u8 = 0x00;

/// Cell address of the humidity line.
pub const HUMIDITY_ADDRESS: u8 = 0x40;

/// Cell address of the pressure line.
pub const PRESSURE_ADDRESS: u8 = 0x14;

/// The display's code for the degree sign.
pub const DEGREE_SIGN: u8 = 0xdf;

/// One of the three lines on the display.
#[derive(Clone, Copy, Debug, PartialEq, Eq, Structural)]
pub enum Field {
    Temperature,
    Humidity,
    Pressure,
}

/// One write to the display.
#[derive(Clone, Copy, Debug, PartialEq, Eq, Structural)]
pub enum DisplayOp {
    /// Move the cursor to a cell address.
    SetCursor(u8),
    /// Write the label text of a field.
    Label(Field),
    /// Write one character code.
    Glyph(u8),
}

/// One sample of the sensor, each value truncated for display.
#[derive(Clone, Copy, Debug, PartialEq, Eq)]
pub struct Reading {
    pub temperature: Truncated,
    pub humidity: Truncated,
    pub pressure: Truncated,
}

pub open spec fn address(f: Field) -> u8 {
    match f {
        Field::Temperature => TEMPERATURE_ADDRESS,
        Field::Humidity => HUMIDITY_ADDRESS,
        Field::Pressure => PRESSURE_ADDRESS,
    }
}

pub open spec fn label(f: Field) -> Seq<char> {
    match f {
        Field::Temperature => "Temp : "@,
        Field::Humidity => "Humi : "@,
        Field::Pressure => "Pres : "@,
    }
}

/// Digits with a decimal point before the last one.
pub open spec fn with_point(g: Seq<u8>) -> Seq<u8> {
    g.drop_last().push(0x2eu8).push(g.last())
}

/// The characters written after the temperature label: two spaces, the
/// value, a space, the degree sign and `C`.
pub open spec fn temperature_text(v: Truncated) -> Seq<u8> {
    seq![0x20u8, 0x20u8] + with_point(fixed_glyphs(v, 2)) + seq![0x20u8, DEGREE_SIGN, 0x43u8]
}

/// The characters written after the humidity label: two spaces, the value, a
/// space and `%`.
pub open spec fn humidity_text(v: Truncated) -> Seq<u8> {
    seq![0x20u8, 0x20u8] + with_point(fixed_glyphs(v, 2)) + seq![0x20u8, 0x25u8]
}

/// The characters written after the pressure label: the four-digit value, a
/// space and `hPa`.
pub open spec fn pressure_text(v: Truncated) -> Seq<u8> {
    with_point(fixed_glyphs(v, 4)) + seq![0x20u8, 0x68u8, 0x50u8, 0x61u8]
}

pub open spec fn glyph_ops(s: Seq<u8>) -> Seq<DisplayOp> {
    s.map_values(|b: u8| DisplayOp::Glyph(b))
}

pub open spec fn field_ops(f: Field, text: Seq<u8>) -> Seq<DisplayOp> {
    seq![DisplayOp::SetCursor(address(f)), DisplayOp::Label(f)] + glyph_ops(text)
}

/// Every write of one render pass, in order: temperature, humidity, pressure.
pub open spec fn render_ops(r: Reading) -> Seq<DisplayOp> {
    field_ops(Field::Temperature, temperature_text(r.temperature)) + field_ops(
        Field::Humidity,
        humidity_text(r.humidity),
    ) + field_ops(Field::Pressure, pressure_text(r.pressure))
}

/// The cell address of a field's line.
pub fn address_of(f: Field) -> (r: u8)
    ensures
        r == address(f),
{
    match f {
        Field::Temperature => TEMPERATURE_ADDRESS,
        Field::Humidity => HUMIDITY_ADDRESS,
        Field::Pressure => PRESSURE_ADDRESS,
    }
}

/// The label text of a field.
pub fn label_text(f: Field) -> (r: &'static str)
    ensures
        r@ == label(f),
{
    match f {
        Field::Temperature => "Temp : ",
        Field::Humidity => "Humi : ",
        Field::Pressure => "Pres : ",
    }
}

fn push_glyphs(ops: &mut Vec<DisplayOp>, s: &Vec<u8>)
    ensures
        final(ops)@ == old(ops)@ + glyph_ops(s@),
{
    let mut i: usize = 0;
    while i < s.len()
        invariant
            i <= s@.len(),
            ops@ == old(ops)@ + glyph_ops(s@.take(i as int)),
        decreases s@.len() - i,
    {
        ops.push(DisplayOp::Glyph(s[i]));
        assert(s@.take(i + 1) =~= s@.take(i as int).push(s@[i as int]));
        assert(glyph_ops(s@.take(i + 1)) =~= glyph_ops(s@.take(i as int)).push(
            DisplayOp::Glyph(s@[i as int]),
        ));
        i = i + 1;
    }
    assert(s@.take(s@.len() as int) =~= s@);
}

/// `g` with a decimal point before its last digit.
fn point_before_last(g: &Vec<u8>) -> (r: Vec<u8>)
    requires
        g@.len() >= 1,
    ensures
        r@ == with_point(g@),
{
    let n: usize = g.len();
    let mut r: Vec<u8> = Vec::new();
    let mut i: usize = 0;
    while i < n - 1
        invariant
            n == g@.len(),
            n >= 1,
            i <= n - 1,
            r@ == g@.take(i as int),
        decreases n - 1 - i,
    {
        r.push(g[i]);
        assert(g@.take(i + 1) =~= g@.take(i as int).push(g@[i as int]));
        i = i + 1;
    }
    r.push(0x2eu8);
    r.push(g[n - 1]);
    assert(r@ =~= with_point(g@));
    r
}

/// The bytes that follow the temperature label.
pub fn temperature_bytes(v: Truncated) -> (r: Vec<u8>)
    ensures
        r@ == temperature_text(v),
{
    let mut d = point_before_last(&format_two(v));
    let mut r: Vec<u8> = vec![0x20u8, 0x20u8];
    let mut tail: Vec<u8> = vec![0x20u8, DEGREE_SIGN, 0x43u8];
    r.append(&mut d);
    r.append(&mut tail);
    assert(r@ =~= temperature_text(v));
    r
}

/// The bytes that follow the humidity label.
pub fn humidity_bytes(v: Truncated) -> (r: Vec<u8>)
    ensures
        r@ == humidity_text(v),
{
    let mut d = point_before_last(&format_two(v));
    let mut r: Vec<u8> = vec![0x20u8, 0x20u8];
    let mut tail: Vec<u8> = vec![0x20u8, 0x25u8];
    r.append(&mut d);
    r.append(&mut tail);
    assert(r@ =~= humidity_text(v));
    r
}

/// The bytes that follow the pressure label.
pub fn pressure_bytes(v: Truncated) -> (r: Vec<u8>)
    ensures
        r@ == pressure_text(v),
{
    let mut r = point_before_last(&format_four(v));
    let mut tail: Vec<u8> = vec![0x20u8, 0x68u8, 0x50u8, 0x61u8];
    r.append(&mut tail);
    assert(r@ =~= pressure_text(v));
    r
}

fn push_field(ops: &mut Vec<DisplayOp>, f: Field, text: &Vec<u8>)
    ensures
        final(ops)@ == old(ops)@ + field_ops(f, text@),
{
    ops.push(DisplayOp::SetCursor(address_of(f)));
    ops.push(DisplayOp::Label(f));
    push_glyphs(ops, text);
    assert(ops@ =~= old(ops)@ + field_ops(f, text@));
}

/// Every write of one render pass for `r`, in the order they are made.
pub fn render_plan(r: Reading) -> (ops: Vec<DisplayOp>)
    ensures
        ops@ == render_ops(r),
{
    let mut ops: Vec<DisplayOp> = Vec::new();
    push_field(&mut ops, Field::Temperature, &temperature_bytes(r.temperature));
    push_field(&mut ops, Field::Humidity, &humidity_bytes(r.humidity));
    push_field(&mut ops, Field::Pressure, &pressure_bytes(r.pressure));
    assert(ops@ =~= render_ops(r));
    ops
}

/// Whatever the values, a render pass moves the cursor exactly three times:
/// first to the temperature line, then to the humidity line, then to the
/// pressure line, and each move is followed by that line's label.
pub proof fn lemma_render_order(r: Reading)
    ensures
        render_ops(r).len() == 33,
        render_ops(r)[0] == DisplayOp::SetCursor(TEMPERATURE_ADDRESS),
        render_ops(r)[1] == DisplayOp::Label(Field::Temperature),
        render_ops(r)[11] == DisplayOp::SetCursor(HUMIDITY_ADDRESS),
        render_ops(r)[12] == DisplayOp::Label(Field::Humidity),
        render_ops(r)[21] == DisplayOp::SetCursor(PRESSURE_ADDRESS),
        render_ops(r)[22] == DisplayOp::Label(Field::Pressure),
        forall|i: int|
            0 <= i < render_ops(r).len() && (render_ops(r)[i] is SetCursor) ==> i == 0 || i == 11
                || i == 21,
{
    let t = field_ops(Field::Temperature, temperature_text(r.temperature));
    let h = field_ops(Field::Humidity, humidity_text(r.humidity));
    let p = field_ops(Field::Pressure, pressure_text(r.pressure));
    assert(t.len() == 11);
    assert(h.len() == 10);
    assert(p.len() == 12);
    let ops = render_ops(r);
    assert(ops == t + h + p);
    assert forall|i: int| 0 <= i < ops.len() && (ops[i] is SetCursor) implies i == 0 || i == 11
        || i == 21 by {
        if i < 11 {
            assert(ops[i] == t[i]);
        } else if i < 21 {
            assert(ops[i] == h[i - 11]);
        } else {
            assert(ops[i] == p[i - 21]);
        }
    }
}

/// Rendering depends on the reading alone: equal readings give the same
/// writes.
pub proof fn lemma_render_deterministic(a: Reading, b: Reading)
    requires
        a == b,
    ensures
        render_ops(a) == render_ops(b),
{
}

} // verus!
