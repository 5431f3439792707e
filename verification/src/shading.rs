//! The colour rules of the scene: one solid colour for the sphere and a
//! vertical gradient between two colours for the sky.

use vstd::prelude::*;
use crate::pixel::Pixel;

verus! {

/// The colour of a ray that meets the sphere: pure red.
pub open spec fn hit_color_value() -> Pixel {
    Pixel { red: 255, green: 0, blue: 0 }
}

/// The sky's colour at the bottom of the gradient.
pub open spec fn sky_bottom_value() -> Pixel {
    Pixel { red: 25, green: 127, blue: 255 }
}

/// The sky's colour at the top of the gradient: white.
pub open spec fn sky_top_value() -> Pixel {
    Pixel { red: 255, green: 255, blue: 255 }
}

#[verifier::when_used_as_spec(hit_color_value)]
pub fn hit_color() -> (p: Pixel)
    ensures
        p == hit_color_value(),
{
    Pixel::new(255, 0, 0)
}

#[verifier::when_used_as_spec(sky_bottom_value)]
pub fn sky_bottom() -> (p: Pixel)
    ensures
        p == sky_bottom_value(),
{
    Pixel::new(25, 127, 255)
}

#[verifier::when_used_as_spec(sky_top_value)]
pub fn sky_top() -> (p: Pixel)
    ensures
        p == sky_top_value(),
{
    Pixel::new(255, 255, 255)
}

/// The colour of one ray. `hit` says whether the ray meets the sphere. `lower`
/// and `upper` are the two ends of the sky gradient, each already weighted by
/// its share at the ray's height; where the ray misses the sphere their
/// saturating sum is the colour of the sky there.
pub fn shade(hit: bool, lower: Pixel, upper: Pixel) -> (p: Pixel)
    ensures
        p == if hit {
            hit_color()
        } else {
            lower.saturating_add(upper)
        },
{
    if hit {
        hit_color()
    } else {
        lower.add(upper)
    }
}

} // verus!
