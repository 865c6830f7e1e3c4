//! Chromatic aberration is approximated by tracing each lens ray in one
//! colour channel, drawn uniformly; the ray's contribution lands in that
//! channel alone and is weighted by the number of channels.

use rand::rngs::StdRng;
use rand::Rng;
use vstd::prelude::*;

verus! {

/// rand's standard generator, carried through as an opaque value.
#[verifier::external_type_specification]
#[verifier::external_body]
pub struct ExStdRng(StdRng);

/// Relies on rand's `Rng::gen_range` over `0..bound`: a value in the
/// half-open range, which must not be empty.
#[verifier::external_body]
fn gen_below(rng: &mut StdRng, bound: u32) -> (r: u32)
    requires
        bound > 0,
    ensures
        r < bound,
{
    rng.gen_range(0..bound)
}

/// Number of colour channels.
pub const NUM_CHANNELS: u32 = 3;

/// One channel of an RGB colour.
#[derive(Clone, Copy, Debug, PartialEq, Eq, Structural)]
pub enum RgbColor {
    Red,
    Green,
    Blue,
}

impl RgbColor {
    /// Position of the channel in an RGB triple.
    pub open spec fn index_spec(&self) -> nat {
        match self {
            RgbColor::Red => 0,
            RgbColor::Green => 1,
            RgbColor::Blue => 2,
        }
    }

    /// The channel at position `i` of an RGB triple.
    pub fn from_index(i: u32) -> (r: RgbColor)
        requires
            i < NUM_CHANNELS,
        ensures
            r.index_spec() == i,
    {
        if i == 0 {
            RgbColor::Red
        } else if i == 1 {
            RgbColor::Green
        } else {
            RgbColor::Blue
        }
    }

    /// Position of the channel in an RGB triple.
    pub fn index(&self) -> (r: u32)
        ensures
            r == self.index_spec(),
            r < NUM_CHANNELS,
    {
        match self {
            RgbColor::Red => 0,
            RgbColor::Green => 1,
            RgbColor::Blue => 2,
        }
    }

    /// The channel as a unit RGB triple: one in its own position, zero in
    /// the two others.
    pub fn as_vec(&self) -> (r: [u8; 3])
        ensures
            forall|k: int| 0 <= k < 3 ==> r@[k] == if k == self.index_spec() {
                1u8
            } else {
                0u8
            },
    {
        match self {
            RgbColor::Red => [1, 0, 0],
            RgbColor::Green => [0, 1, 0],
            RgbColor::Blue => [0, 0, 1],
        }
    }

    /// Draws the channel that a lens ray is traced in, each of the three
    /// with the same chance: a uniform index in `0..NUM_CHANNELS`, mapped
    /// by `from_index`.
    pub fn random(rng: &mut StdRng) -> RgbColor {
        let i = gen_below(rng, NUM_CHANNELS);
        RgbColor::from_index(i)
    }
}

} // verus!
