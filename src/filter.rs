//! The optional smoothing filter applied when the accumulation buffer is
//! turned into an image. A box filter of radius `k` averages each pixel
//! with its neighbours at most `k` pixels away along each axis, cut off at
//! the image's border.

use vstd::prelude::*;

verus! {

/// Noise-reduction filter.
#[derive(Clone, Copy, Debug, PartialEq, Eq, Structural)]
pub enum Filter {
    /// No smoothing.
    Plain,
    /// Box filter of the given radius, in pixels.
    Box(u32),
}

impl Default for Filter {
    fn default() -> (r: Filter)
        ensures
            r == Filter::Plain,
    {
        Filter::Plain
    }
}

pub open spec fn radius_of(filter: Filter) -> nat {
    match filter {
        Filter::Plain => 0,
        Filter::Box(k) => k as nat,
    }
}

/// Inclusive range of positions, along one axis of length `len`, that the
/// filter averages for position `i`: the positions within the radius of
/// `i` that lie on the image.
pub fn window(filter: Filter, i: u32, len: u32) -> (r: (u32, u32))
    requires
        i < len,
    ensures
        r.0 as int == if i >= radius_of(filter) {
            i - radius_of(filter)
        } else {
            0
        },
        r.1 as int == if i + radius_of(filter) < len {
            i + radius_of(filter)
        } else {
            len - 1
        },
        r.0 <= i <= r.1 < len,
{
    let k: u32 = match filter {
        Filter::Plain => 0,
        Filter::Box(k) => k,
    };
    let lo: u32 = if i >= k {
        i - k
    } else {
        0
    };
    let hi: u32 = if k < len - i {
        i + k
    } else {
        len - 1
    };
    (lo, hi)
}

} // verus!
