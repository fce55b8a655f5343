//! Bringing integer samples to the range from -1 to +1.
//!
//! A level is given as an exact fraction of two integers. The caller divides
//! once, in the floating-point type of its samples: both integers are exact in
//! that type, so the quotient is the correctly rounded level. Samples that are
//! already floating point are taken as they come.

use vstd::prelude::*;

verus! {

/// The fraction `num / den`, with `den` positive.
#[derive(Clone, Copy, Debug, PartialEq, Eq, Structural)]
pub struct Ratio {
    pub num: i32,
    pub den: i32,
}

/// The denominator for signed 16-bit samples: the largest such sample.
pub const I16_SCALE: i32 = 32767;

/// The denominator for unsigned 16-bit samples: twice the midpoint 32767.5 of
/// their range.
pub const U16_SCALE: i32 = 65535;

/// The level of a signed 16-bit sample: `x / 32767`.
pub open spec fn i16_level(x: i16) -> Ratio {
    Ratio { num: x as i32, den: I16_SCALE }
}

/// The level of an unsigned 16-bit sample: `(x - 32767.5) / 32767.5`, written
/// with both sides doubled so that they are integers.
pub open spec fn u16_level(x: u16) -> Ratio {
    Ratio { num: (2 * x - U16_SCALE) as i32, den: U16_SCALE }
}

/// The level of a signed 16-bit sample.
pub fn normalize_i16(x: i16) -> (level: Ratio)
    ensures
        level == i16_level(x),
        level.num == x,
        level.den == 32767,
{
    Ratio { num: x as i32, den: I16_SCALE }
}

/// The level of an unsigned 16-bit sample.
pub fn normalize_u16(x: u16) -> (level: Ratio)
    ensures
        level == u16_level(x),
        level.num == 2 * x - 65535,
        level.den == 65535,
{
    Ratio { num: 2 * (x as i32) - U16_SCALE, den: U16_SCALE }
}

/// Both integer encodings map their largest sample to exactly +1. The
/// unsigned one maps its smallest sample to exactly -1; the signed one, whose
/// range reaches one step further down than up, maps it one step of `1 / 32767`
/// below -1. Every level lies between these ends, and a larger sample never
/// has a smaller level.
pub proof fn law_full_scale(x: i16, y: i16, u: u16, v: u16)
    ensures
        i16_level(i16::MAX).num == i16_level(i16::MAX).den,
        i16_level(i16::MIN).num == -i16_level(i16::MIN).den - 1,
        u16_level(u16::MAX).num == u16_level(u16::MAX).den,
        u16_level(u16::MIN).num == -u16_level(u16::MIN).den,
        i16_level(x).den == I16_SCALE > 0,
        u16_level(u).den == U16_SCALE > 0,
        -i16_level(x).den - 1 <= i16_level(x).num <= i16_level(x).den,
        -u16_level(u).den <= u16_level(u).num <= u16_level(u).den,
        x <= y ==> i16_level(x).num <= i16_level(y).num,
        u <= v ==> u16_level(u).num <= u16_level(v).num,
{
}

} // verus!
