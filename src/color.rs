//! Colors and brightness scaling.

use vstd::prelude::*;

verus! {

/// An 8-bit-per-channel RGB color, as sent to the LED rings.
#[derive(Debug, Clone, Copy, PartialEq, Eq, Structural, Default)]
pub struct Color {
    pub r: u8,
    pub g: u8,
    pub b: u8,
}

/// One channel scaled by `factor / 255`, truncating.
pub open spec fn scale_channel(channel: u8, factor: u8) -> int {
    (channel * factor) / 255
}

/// `c` with every channel scaled by `factor / 255`, truncating.
pub open spec fn scaled(c: Color, factor: u8) -> Color {
    Color {
        r: scale_channel(c.r, factor) as u8,
        g: scale_channel(c.g, factor) as u8,
        b: scale_channel(c.b, factor) as u8,
    }
}

proof fn lemma_scale_channel_bounds(channel: u8, factor: u8)
    ensures
        0 <= scale_channel(channel, factor) <= channel,
{
    assert(channel * factor <= channel * 255) by (nonlinear_arith)
        requires factor <= 255;
}

/// Channel `i` of the eleven-step linear blend from `from` (at 0) to `to` (at 11),
/// truncating.
pub open spec fn blend_channel(from: u8, to: u8, i: int) -> int {
    (from * (11 - i) + to * i) / 11
}

/// The color at position `i` of a twelve-pixel gradient from `from` to `to`.
pub open spec fn blended(from: Color, to: Color, i: int) -> Color {
    Color {
        r: blend_channel(from.r, to.r, i) as u8,
        g: blend_channel(from.g, to.g, i) as u8,
        b: blend_channel(from.b, to.b, i) as u8,
    }
}

pub open spec fn black() -> Color {
    Color { r: 0, g: 0, b: 0 }
}

impl Color {
    pub fn new(r: u8, g: u8, b: u8) -> (c: Color)
        ensures
            c == (Color { r, g, b }),
    {
        Color { r, g, b }
    }

    /// All channels off.
    pub fn black() -> (c: Color)
        ensures
            c == black(),
    {
        Color { r: 0, g: 0, b: 0 }
    }
}

fn scale_u8(channel: u8, factor: u8) -> (r: u8)
    ensures
        r == scale_channel(channel, factor),
{
    proof {
        lemma_scale_channel_bounds(channel, factor);
    }
    let wide: u16 = channel as u16 * factor as u16;
    (wide / 255) as u8
}

/// Scales every channel of `color` by `scale / 255` with truncating integer math.
pub fn scale_brightness(color: Color, scale: u8) -> (r: Color)
    ensures
        r == scaled(color, scale),
{
    Color {
        r: scale_u8(color.r, scale),
        g: scale_u8(color.g, scale),
        b: scale_u8(color.b, scale),
    }
}

proof fn lemma_blend_channel_bounds(from: u8, to: u8, i: int)
    requires
        0 <= i <= 11,
    ensures
        0 <= blend_channel(from, to, i) <= 255,
{
    assert(0 <= from * (11 - i) <= 255 * (11 - i)) by (nonlinear_arith)
        requires 0 <= i <= 11, from <= 255;
    assert(0 <= to * i <= 255 * i) by (nonlinear_arith)
        requires 0 <= i <= 11, to <= 255;
}

fn blend_u8(from: u8, to: u8, i: u8) -> (r: u8)
    requires
        i <= 11,
    ensures
        r == blend_channel(from, to, i as int),
{
    proof {
        lemma_blend_channel_bounds(from, to, i as int);
    }
    let wide: u16 = from as u16 * (11 - i) as u16 + to as u16 * i as u16;
    (wide / 11) as u8
}

/// Pixel `i` of an eleven-step linear gradient from `start` to `end`: `start` at 0,
/// `end` at 11, each channel truncated.
pub fn interpolate_color(start: Color, end: Color, i: u8) -> (r: Color)
    requires
        i <= 11,
    ensures
        r == blended(start, end, i as int),
{
    Color { r: blend_u8(start.r, end.r, i), g: blend_u8(start.g, end.g, i), b: blend_u8(start.b, end.b, i) }
}

/// Scaling by zero gives black, scaling by 255 keeps the color, and a larger factor
/// never darkens any channel.
pub proof fn lemma_scale_laws(c: Color, low: u8, high: u8)
    requires
        low <= high,
    ensures
        scaled(c, 0) == black(),
        scaled(c, 255) == c,
        scaled(c, low).r <= scaled(c, high).r,
        scaled(c, low).g <= scaled(c, high).g,
        scaled(c, low).b <= scaled(c, high).b,
{
    lemma_scale_monotonic(c.r, low, high);
    lemma_scale_monotonic(c.g, low, high);
    lemma_scale_monotonic(c.b, low, high);
    lemma_scale_channel_bounds(c.r, low);
    lemma_scale_channel_bounds(c.g, low);
    lemma_scale_channel_bounds(c.b, low);
    lemma_scale_channel_bounds(c.r, high);
    lemma_scale_channel_bounds(c.g, high);
    lemma_scale_channel_bounds(c.b, high);
}

proof fn lemma_scale_monotonic(channel: u8, low: u8, high: u8)
    requires
        low <= high,
    ensures
        scale_channel(channel, low) <= scale_channel(channel, high),
{
    assert(channel * low <= channel * high) by (nonlinear_arith)
        requires low <= high, 0 <= channel;
    vstd::arithmetic::div_mod::lemma_div_is_ordered(channel * low, channel * high, 255);
}

} // verus!
