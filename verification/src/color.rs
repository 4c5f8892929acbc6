//! Colors with one byte per channel, and the two clamping operations the
//! shader needs: scaling by an intensity and adding two colors.

use crate::fixed::{tdiv128, tdiv_s, lemma_i64_mul_fits, SCALE};
use vstd::arithmetic::div_mod::lemma_div_multiples_vanish;
use vstd::prelude::*;

verus! {

/// An RGB color, each channel in `0..=255`.
#[derive(Clone, Copy, Debug, PartialEq, Eq, Structural)]
pub struct Color {
    pub red: u8,
    pub green: u8,
    pub blue: u8,
}

/// Clamps an integer into the channel range `0..=255`.
pub open spec fn clamp255_s(x: int) -> int {
    if x < 0 {
        0
    } else if x > 255 {
        255
    } else {
        x
    }
}

/// A channel scaled by the fixed-point intensity `k`, clamped to the
/// channel range.
pub open spec fn chan_scale_s(c: u8, k: i64) -> u8 {
    clamp255_s(tdiv_s(c as int * k as int, SCALE as int)) as u8
}

/// A color scaled channel-wise by the fixed-point intensity `k`.
pub open spec fn color_times_s(c: Color, k: i64) -> Color {
    Color {
        red: chan_scale_s(c.red, k),
        green: chan_scale_s(c.green, k),
        blue: chan_scale_s(c.blue, k),
    }
}

/// Two channels added, clamped to the channel range.
pub open spec fn chan_add_s(a: u8, b: u8) -> u8 {
    clamp255_s(a as int + b as int) as u8
}

/// Two colors added channel-wise with clamping.
pub open spec fn color_plus_s(a: Color, b: Color) -> Color {
    Color {
        red: chan_add_s(a.red, b.red),
        green: chan_add_s(a.green, b.green),
        blue: chan_add_s(a.blue, b.blue),
    }
}

/// Scaling a color by the intensity one returns it unchanged.
pub proof fn lemma_color_times_one(c: Color)
    ensures
        color_times_s(c, SCALE) == c,
{
    assert(SCALE as int == 1000000);
    lemma_chan_times_one(c.red);
    lemma_chan_times_one(c.green);
    lemma_chan_times_one(c.blue);
}

proof fn lemma_chan_times_one(c: u8)
    ensures
        chan_scale_s(c, SCALE) == c,
{
    let s = SCALE as int;
    assert(s == 1000000);
    if c as int > 0 {
        lemma_div_multiples_vanish(c as int, s);
        assert(c as int * s == s * (c as int)) by (nonlinear_arith);
    }
}

/// Scaling a color by the intensity zero gives black.
pub proof fn lemma_color_times_zero(c: Color)
    ensures
        color_times_s(c, 0) == (Color { red: 0, green: 0, blue: 0 }),
{
    assert(c.red as int * 0 == 0);
    assert(c.green as int * 0 == 0);
    assert(c.blue as int * 0 == 0);
}

/// Adding black to a color returns it unchanged.
pub proof fn lemma_color_plus_black(c: Color)
    ensures
        color_plus_s(c, Color { red: 0, green: 0, blue: 0 }) == c,
{
}

fn chan_scale(c: u8, k: i64) -> (r: u8)
    ensures
        r == chan_scale_s(c, k),
{
    proof {
        lemma_i64_mul_fits(c as int, k as int);
    }
    let p: i128 = (c as i128) * (k as i128);
    let q: i128 = tdiv128(p, SCALE as i128);
    if q < 0 {
        0
    } else if q > 255 {
        255
    } else {
        q as u8
    }
}

impl Color {
    /// Builds a color from its three channels.
    pub fn new(red: u8, green: u8, blue: u8) -> (r: Color)
        ensures
            r == (Color { red, green, blue }),
    {
        Color { red, green, blue }
    }

    /// The background color: black.
    pub fn background() -> (r: Color)
        ensures
            r == (Color { red: 0u8, green: 0u8, blue: 0u8 }),
    {
        Color { red: 0, green: 0, blue: 0 }
    }

    /// This color scaled channel-wise by the fixed-point intensity `k`,
    /// clamping each channel to `0..=255`.
    pub fn times(self, k: i64) -> (r: Color)
        ensures
            r == color_times_s(self, k),
    {
        Color {
            red: chan_scale(self.red, k),
            green: chan_scale(self.green, k),
            blue: chan_scale(self.blue, k),
        }
    }

    /// This color added channel-wise to `o`, clamping each channel to
    /// `0..=255`.
    pub fn plus(self, o: Color) -> (r: Color)
        ensures
            r == color_plus_s(self, o),
    {
        let red: u16 = self.red as u16 + o.red as u16;
        let green: u16 = self.green as u16 + o.green as u16;
        let blue: u16 = self.blue as u16 + o.blue as u16;
        Color {
            red: if red > 255 { 255 } else { red as u8 },
            green: if green > 255 { 255 } else { green as u8 },
            blue: if blue > 255 { 255 } else { blue as u8 },
        }
    }
}

} // verus!
