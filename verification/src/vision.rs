use vstd::prelude::*;

verus! {

/// Channels of a gray pixel differ by at most this much.
pub const GRAY_SPREAD: u8 = 48;

/// Pixels at least this opaque count as seen.
pub const MIN_ALPHA: u8 = 128;

pub open spec fn max3(a: u8, b: u8, c: u8) -> u8 {
    if a >= b && a >= c {
        a
    } else if b >= c {
        b
    } else {
        c
    }
}

pub open spec fn min3(a: u8, b: u8, c: u8) -> u8 {
    if a <= b && a <= c {
        a
    } else if b <= c {
        b
    } else {
        c
    }
}

/// The colour part of the rope test: an opaque pixel whose channels lie within
/// [`GRAY_SPREAD`] of each other, that is, a gray one. Whether it is dark
/// enough is a matter of its luminance, decided separately.
pub fn is_neutral_opaque(r: u8, g: u8, b: u8, a: u8) -> (n: bool)
    ensures
        n == (a >= MIN_ALPHA && max3(r, g, b) - min3(r, g, b) <= GRAY_SPREAD),
{
    let low: u8 = if r <= g && r <= b {
        r
    } else if g <= b {
        g
    } else {
        b
    };
    let high: u8 = if r >= g && r >= b {
        r
    } else if g >= b {
        g
    } else {
        b
    };
    a >= MIN_ALPHA && high - low <= GRAY_SPREAD
}

/// The smallest of three channels is at most each of them and is one of
/// them; the largest likewise. Their difference is therefore the largest
/// difference between any two channels.
pub proof fn extremes_of_channels(r: u8, g: u8, b: u8)
    ensures
        min3(r, g, b) <= r && min3(r, g, b) <= g && min3(r, g, b) <= b,
        min3(r, g, b) == r || min3(r, g, b) == g || min3(r, g, b) == b,
        max3(r, g, b) >= r && max3(r, g, b) >= g && max3(r, g, b) >= b,
        max3(r, g, b) == r || max3(r, g, b) == g || max3(r, g, b) == b,
{
}

/// A pixel passes the colour test exactly when it is at least
/// [`MIN_ALPHA`] opaque and every two of its channels differ by at most
/// [`GRAY_SPREAD`].
pub proof fn neutral_means_close_channels(r: u8, g: u8, b: u8, a: u8)
    ensures
        (a >= MIN_ALPHA && max3(r, g, b) - min3(r, g, b) <= GRAY_SPREAD) == (a >= MIN_ALPHA && -48
            <= r - g <= 48 && -48 <= r - b <= 48 && -48 <= g - b <= 48),
{
}

} // verus!
