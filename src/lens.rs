//! Traversal order of a lens stack. Surfaces are stored from the one facing
//! the scene (index 0) to the one facing the sensor; a ray leaving the
//! sensor meets them in the reverse order.

use vstd::prelude::*;

verus! {

/// One step of the walk through a lens stack: the surface met, and the
/// surface whose medium lies beyond it, `None` where beyond it lies the
/// imaging medium in front of the lens.
#[derive(Clone, Copy, Debug, PartialEq, Eq, Structural)]
pub struct SurfaceStep {
    pub surface: usize,
    pub beyond: Option<usize>,
}

pub open spec fn surface_step_spec(k: int, n: int) -> SurfaceStep {
    let s = n - 1 - k;
    SurfaceStep {
        surface: s as usize,
        beyond: if s == 0 {
            None
        } else {
            Some((s - 1) as usize)
        },
    }
}

/// The steps of a ray through a stack of `n` surfaces, from the rearmost
/// surface to the frontmost; each surface is met exactly once.
pub fn surface_walk(n: usize) -> (r: Vec<SurfaceStep>)
    ensures
        r@.len() == n,
        forall|k: int| 0 <= k < n ==> #[trigger] r@[k] == surface_step_spec(k, n as int),
{
    let mut r: Vec<SurfaceStep> = Vec::new();
    let mut s: usize = n;
    while s > 0
        invariant
            s <= n,
            r@.len() == n - s,
            forall|k: int| 0 <= k < n - s ==> #[trigger] r@[k] == surface_step_spec(k, n as int),
        decreases s,
    {
        s = s - 1;
        let beyond = if s == 0 {
            None
        } else {
            Some(s - 1)
        };
        r.push(SurfaceStep { surface: s, beyond });
    }
    r
}

} // verus!
