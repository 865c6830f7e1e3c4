//! The bounce cutoff of the recursive radiance estimator. A path scatters
//! into an indirect bounce only while its bounce count is under the limit;
//! there is no other way for it to end early or go on.

use vstd::prelude::*;

verus! {

pub open spec fn next_bounce_spec(num_bounces: nat, max_bounces: nat) -> Option<nat> {
    if num_bounces < max_bounces {
        Some(num_bounces + 1)
    } else {
        None
    }
}

/// How many more indirect bounces a path at `num_bounces` can take.
pub open spec fn bounces_left(num_bounces: nat, max_bounces: nat) -> nat
    decreases max_bounces - num_bounces,
{
    match next_bounce_spec(num_bounces, max_bounces) {
        Some(d) => 1 + bounces_left(d, max_bounces),
        None => 0,
    }
}

/// The bounce count of the indirect ray traced from a hit at `num_bounces`,
/// or `None` where the estimator keeps to emitted and direct light.
pub fn next_bounce(num_bounces: u32, max_bounces: u32) -> (r: Option<u32>)
    ensures
        r == match next_bounce_spec(num_bounces as nat, max_bounces as nat) {
            Some(d) => Some(d as u32),
            None => None::<u32>,
        },
{
    if num_bounces < max_bounces {
        Some(num_bounces + 1)
    } else {
        None
    }
}

/// A path started at bounce `num_bounces` takes exactly
/// `max_bounces - num_bounces` indirect bounces (none once past the limit),
/// so the recursion is bounded by the limit alone.
pub proof fn lemma_bounce_limit(num_bounces: nat, max_bounces: nat)
    ensures
        bounces_left(num_bounces, max_bounces) == if num_bounces <= max_bounces {
            max_bounces - num_bounces
        } else {
            0
        },
    decreases max_bounces - num_bounces,
{
    if num_bounces < max_bounces {
        lemma_bounce_limit(num_bounces + 1, max_bounces);
    }
}

/// With a limit of zero bounces no indirect term is ever traced: a camera
/// ray's radiance is the emitted and direct light at its first hit.
pub proof fn lemma_no_indirect_without_bounces(num_bounces: nat)
    ensures
        next_bounce_spec(num_bounces, 0) is None,
        bounces_left(0, 0) == 0,
{
}

} // verus!
