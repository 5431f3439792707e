//! Eight-bit RGB colours with saturating arithmetic.

use vstd::prelude::*;

verus! {

/// An RGB colour with eight bits per channel.
#[derive(Clone, Copy, Debug, PartialEq, Eq, Structural)]
pub struct Pixel {
    pub red: u8,
    pub green: u8,
    pub blue: u8,
}

/// The sum of two channel values, held at 255 where it would pass it.
pub open spec fn saturating_sum(a: u8, b: u8) -> u8 {
    if a + b > 255 {
        255u8
    } else {
        (a + b) as u8
    }
}

/// The channel value nearest to `v`: 0 below the range, 255 above it, `v` inside.
pub open spec fn clamp_channel(v: int) -> u8 {
    if v < 0 {
        0u8
    } else if v > 255 {
        255u8
    } else {
        v as u8
    }
}

fn sum_channel(a: u8, b: u8) -> (s: u8)
    ensures
        s == saturating_sum(a, b),
{
    let wide: u16 = a as u16 + b as u16;
    if wide > 255 {
        255
    } else {
        a + b
    }
}

fn clamp_to_channel(v: i64) -> (c: u8)
    ensures
        c == clamp_channel(v as int),
{
    if v < 0 {
        0
    } else if v > 255 {
        255
    } else {
        v as u8
    }
}

impl Pixel {
    /// The channelwise saturating sum of two pixels.
    pub open spec fn saturating_add(self, rhs: Pixel) -> Pixel {
        Pixel {
            red: saturating_sum(self.red, rhs.red),
            green: saturating_sum(self.green, rhs.green),
            blue: saturating_sum(self.blue, rhs.blue),
        }
    }

    /// The pixel whose channels are the three values clamped into `0..=255`.
    pub open spec fn clamped_from(red: int, green: int, blue: int) -> Pixel {
        Pixel {
            red: clamp_channel(red),
            green: clamp_channel(green),
            blue: clamp_channel(blue),
        }
    }

    pub fn new(red: u8, green: u8, blue: u8) -> (p: Pixel)
        ensures
            p == (Pixel { red, green, blue }),
    {
        Pixel { red, green, blue }
    }

    /// Adds two pixels channel by channel. A channel whose sum would exceed
    /// 255 is 255; no channel wraps around.
    pub fn add(self, rhs: Pixel) -> (sum: Pixel)
        ensures
            sum == self.saturating_add(rhs),
    {
        Pixel {
            red: sum_channel(self.red, rhs.red),
            green: sum_channel(self.green, rhs.green),
            blue: sum_channel(self.blue, rhs.blue),
        }
    }

    /// Builds a pixel from channel values of any size, clamping each into
    /// `0..=255`. This is the last step of scaling a pixel by a real factor:
    /// the caller multiplies each channel, truncates the product to an
    /// integer, and hands the three integers over.
    pub fn clamped(red: i64, green: i64, blue: i64) -> (p: Pixel)
        ensures
            p == Pixel::clamped_from(red as int, green as int, blue as int),
    {
        Pixel {
            red: clamp_to_channel(red),
            green: clamp_to_channel(green),
            blue: clamp_to_channel(blue),
        }
    }
}

/// Each channel of a sum of two pixels is the smaller of 255 and the exact
/// sum of the two channel values: it never exceeds 255 and never wraps.
pub proof fn lemma_add_saturates(a: Pixel, b: Pixel)
    ensures
        a.saturating_add(b).red as int == if a.red + b.red < 255 {
            a.red + b.red
        } else {
            255
        },
        a.saturating_add(b).green as int == if a.green + b.green < 255 {
            a.green + b.green
        } else {
            255
        },
        a.saturating_add(b).blue as int == if a.blue + b.blue < 255 {
            a.blue + b.blue
        } else {
            255
        },
{
}

} // verus!
