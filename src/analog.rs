//! Analog readings from input devices are IEEE-754 single-precision numbers.
//! They are held here as their bit patterns (`f32::to_bits`), so that the
//! rules applied to them can be stated and proved over integers.
//!
//! In that layout the top bit is the sign, and the remaining 31 bits (the
//! magnitude) order finite values by absolute value. A magnitude of
//! `0x7f80_0000` is an infinity; a larger one is a NaN.
use vstd::prelude::*;

verus! {

/// Bits of `1.0`.
pub const ONE_BITS: u32 = 0x3f80_0000;

/// Bits of `0.0`.
pub const ZERO_BITS: u32 = 0;

/// Magnitude of an infinity; the least magnitude that is not finite.
pub const INFINITY_MAGNITUDE: u32 = 0x7f80_0000;

/// The sign bit.
pub const SIGN_BIT: u32 = 0x8000_0000;

/// The bits below the sign bit: the absolute value's pattern.
pub open spec fn magnitude(bits: u32) -> u32 {
    (bits % SIGN_BIT) as u32
}

pub open spec fn is_negative(bits: u32) -> bool {
    bits >= SIGN_BIT
}

pub open spec fn is_finite(bits: u32) -> bool {
    magnitude(bits) < INFINITY_MAGNITUDE
}

pub open spec fn is_nan(bits: u32) -> bool {
    magnitude(bits) > INFINITY_MAGNITUDE
}

/// An axis reading made safe for consumers: a non-finite value becomes
/// `0.0`, a finite one is clamped to `[-1.0, 1.0]` (keeping its sign), and one
/// already in range is kept bit for bit.
pub open spec fn normalized_axis(bits: u32) -> u32 {
    if !is_finite(bits) {
        ZERO_BITS
    } else if magnitude(bits) > ONE_BITS {
        if is_negative(bits) {
            (SIGN_BIT + ONE_BITS) as u32
        } else {
            ONE_BITS
        }
    } else {
        bits
    }
}

/// A button's analog reading clamped to `[0.0, 1.0]` as `f32::clamp` does:
/// a value below `0.0` becomes `0.0`, one above `1.0` becomes `1.0`, and a NaN
/// or a value in range (`-0.0` included) is kept.
pub open spec fn clamped_unit(bits: u32) -> u32 {
    if is_nan(bits) {
        bits
    } else if is_negative(bits) && magnitude(bits) != 0 {
        ZERO_BITS
    } else if !is_negative(bits) && bits > ONE_BITS {
        ONE_BITS
    } else {
        bits
    }
}

/// Normalizes an axis reading given as `f32` bits.
pub fn normalize_axis_value(bits: u32) -> (r: u32)
    ensures
        r == normalized_axis(bits),
        is_finite(r),
        magnitude(r) <= ONE_BITS,
{
    let mag = bits % SIGN_BIT;
    if mag >= INFINITY_MAGNITUDE {
        ZERO_BITS
    } else if mag > ONE_BITS {
        if bits >= SIGN_BIT {
            SIGN_BIT + ONE_BITS
        } else {
            ONE_BITS
        }
    } else {
        bits
    }
}

/// Clamps a button's analog reading, given as `f32` bits, to `[0.0, 1.0]`.
pub fn clamp_button_value(bits: u32) -> (r: u32)
    ensures
        r == clamped_unit(bits),
        !is_nan(bits) ==> magnitude(r) <= ONE_BITS && (is_negative(r) ==> magnitude(r) == 0),
{
    let mag = bits % SIGN_BIT;
    if mag > INFINITY_MAGNITUDE {
        bits
    } else if bits >= SIGN_BIT && mag != 0 {
        ZERO_BITS
    } else if bits < SIGN_BIT && bits > ONE_BITS {
        ONE_BITS
    } else {
        bits
    }
}

} // verus!
