//! Colours with fixed-point channels.

use vstd::prelude::*;
use crate::units::{lemma_lerp_bounds, lerp, lerp_spec, UNIT};

verus! {

/// A colour. Each channel is a fraction in millionths: `UNIT` is full
/// intensity, and for `a` full opacity.
#[derive(Clone, Copy, Debug, PartialEq, Eq, Structural)]
pub struct Rgba {
    pub r: u32,
    pub g: u32,
    pub b: u32,
    pub a: u32,
}

impl Rgba {
    /// This colour with its opacity replaced.
    pub open spec fn with_a_spec(self, a: u32) -> Rgba {
        Rgba { r: self.r, g: self.g, b: self.b, a }
    }

    /// The colour a fraction `t` of the way from `self` to `other`, channel
    /// by channel, each rounded down.
    pub open spec fn lerp_spec(self, other: Rgba, t: int) -> Rgba {
        Rgba {
            r: lerp_spec(self.r as int, other.r as int, t) as u32,
            g: lerp_spec(self.g as int, other.g as int, t) as u32,
            b: lerp_spec(self.b as int, other.b as int, t) as u32,
            a: lerp_spec(self.a as int, other.a as int, t) as u32,
        }
    }

    /// This colour with its opacity replaced.
    pub fn with_a(self, a: u32) -> (c: Rgba)
        ensures
            c == self.with_a_spec(a),
    {
        Rgba { r: self.r, g: self.g, b: self.b, a }
    }

    /// The colour a fraction `t` of the way from `self` to `other`.
    pub fn lerp(self, other: Rgba, t: u32) -> (c: Rgba)
        requires
            t <= UNIT,
        ensures
            c == self.lerp_spec(other, t as int),
    {
        Rgba {
            r: lerp(self.r, other.r, t),
            g: lerp(self.g, other.g, t),
            b: lerp(self.b, other.b, t),
            a: lerp(self.a, other.a, t),
        }
    }
}

/// The two colours a button moves between.
#[derive(Clone, Copy, Debug, PartialEq, Eq, Structural)]
pub struct Palette {
    /// The colour of a button at rest.
    pub rest: Rgba,
    /// The colour of a button that is fully hovered.
    pub active: Rgba,
}

impl Palette {
    /// The blend of the two colours at progress `t`.
    pub open spec fn blend_spec(self, t: int) -> Rgba {
        self.rest.lerp_spec(self.active, t)
    }

    /// The blend of the two colours at progress `t`.
    pub fn blend(&self, t: u32) -> (c: Rgba)
        requires
            t <= UNIT,
        ensures
            c == self.blend_spec(t as int),
    {
        self.rest.lerp(self.active, t)
    }
}

/// Interpolation starts at the first colour, ends at the second, and keeps
/// every channel between the two.
pub proof fn lemma_color_lerp_ends(from: Rgba, to: Rgba, t: int)
    requires
        0 <= t <= UNIT,
    ensures
        from.lerp_spec(to, 0) == from,
        from.lerp_spec(to, UNIT as int) == to,
        from.r <= to.r ==> from.r <= from.lerp_spec(to, t).r <= to.r,
        from.r >= to.r ==> from.r >= from.lerp_spec(to, t).r >= to.r,
        from.g <= to.g ==> from.g <= from.lerp_spec(to, t).g <= to.g,
        from.g >= to.g ==> from.g >= from.lerp_spec(to, t).g >= to.g,
        from.b <= to.b ==> from.b <= from.lerp_spec(to, t).b <= to.b,
        from.b >= to.b ==> from.b >= from.lerp_spec(to, t).b >= to.b,
        from.a <= to.a ==> from.a <= from.lerp_spec(to, t).a <= to.a,
        from.a >= to.a ==> from.a >= from.lerp_spec(to, t).a >= to.a,
{
    lemma_lerp_bounds(from.r as int, to.r as int, t);
    lemma_lerp_bounds(from.g as int, to.g as int, t);
    lemma_lerp_bounds(from.b as int, to.b as int, t);
    lemma_lerp_bounds(from.a as int, to.a as int, t);
}

} // verus!
