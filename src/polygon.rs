//! Combinatorics of aperture polygons: the edges that the even-odd rule
//! walks, the rule itself, and the vertex layouts of the star and heart
//! shapes. The coordinates themselves are computed by the caller.

use vstd::prelude::*;

verus! {

/// Index of the vertex that precedes vertex `i` on a closed polygon of `n`
/// vertices: the last vertex precedes the first.
pub open spec fn prev_vertex(i: int, n: int) -> int {
    if i == 0 {
        n - 1
    } else {
        i - 1
    }
}

/// The edges of a closed polygon of `n` vertices as `(start, end)` index
/// pairs, edge `i` ending at vertex `i`; the first edge is the one that
/// closes the polygon, from the last vertex to the first.
pub fn polygon_edges(n: usize) -> (r: Vec<(usize, usize)>)
    ensures
        r@.len() == n,
        forall|i: int|
            0 <= i < n ==> #[trigger] r@[i] == (prev_vertex(i, n as int) as usize, i as usize),
{
    let mut r: Vec<(usize, usize)> = Vec::new();
    let mut i: usize = 0;
    while i < n
        invariant
            i <= n,
            r@.len() == i,
            forall|k: int|
                0 <= k < i ==> #[trigger] r@[k] == (prev_vertex(k, n as int) as usize, k as usize),
        decreases n - i,
    {
        let j: usize = if i == 0 {
            n - 1
        } else {
            i - 1
        };
        r.push((j, i));
        i = i + 1;
    }
    r
}

/// Number of edges that a ray from the query point crosses.
pub open spec fn count_crossings(crossed: Seq<bool>) -> nat
    decreases crossed.len(),
{
    if crossed.len() == 0 {
        0
    } else {
        count_crossings(crossed.drop_last()) + if crossed.last() {
            1nat
        } else {
            0nat
        }
    }
}

/// The even-odd rule: given, for each edge, whether the horizontal ray from
/// the query point crosses it, the point is inside exactly when the number
/// of crossings is odd.
pub fn even_odd_inside(crossed: &Vec<bool>) -> (r: bool)
    ensures
        r == (count_crossings(crossed@) % 2 == 1),
{
    let mut inside = false;
    let mut i: usize = 0;
    while i < crossed.len()
        invariant
            i <= crossed@.len(),
            inside == (count_crossings(crossed@.subrange(0, i as int)) % 2 == 1),
        decreases crossed@.len() - i,
    {
        assert(crossed@.subrange(0, i + 1).drop_last() =~= crossed@.subrange(0, i as int));
        if crossed[i] {
            inside = !inside;
        }
        i = i + 1;
    }
    assert(crossed@.subrange(0, crossed@.len() as int) =~= crossed@);
    inside
}

/// A vertex of an n-pointed star. Vertex `step` lies at angle
/// `step * pi / n`; outer vertices lie on the unit circle and inner ones on
/// the circle of radius one half.
#[derive(Clone, Copy, Debug, PartialEq, Eq, Structural)]
pub struct StarVertex {
    pub step: u64,
    pub outer: bool,
}

/// The `2 * points` vertices of a star with `points` points, outer and
/// inner vertices alternating, starting with an outer one at angle zero.
pub fn star_layout(points: u32) -> (r: Vec<StarVertex>)
    ensures
        r@.len() == 2 * points,
        forall|j: int|
            0 <= j < r@.len() ==> #[trigger] r@[j] == (StarVertex {
                step: j as u64,
                outer: j % 2 == 0,
            }),
{
    let mut r: Vec<StarVertex> = Vec::new();
    let mut i: u32 = 0;
    while i < points
        invariant
            i <= points,
            r@.len() == 2 * i,
            forall|j: int|
                0 <= j < r@.len() ==> #[trigger] r@[j] == (StarVertex {
                    step: j as u64,
                    outer: j % 2 == 0,
                }),
        decreases points - i,
    {
        let step: u64 = 2 * (i as u64);
        r.push(StarVertex { step, outer: true });
        r.push(StarVertex { step: step + 1, outer: false });
        i = i + 1;
    }
    r
}

/// Angles, in whole degrees, at which the heart curve is sampled: from -180
/// up to 170 in steps of 10.
pub fn heart_sample_degrees() -> (r: Vec<i32>)
    ensures
        r@.len() == 36,
        forall|k: int| 0 <= k < 36 ==> #[trigger] r@[k] == -180 + 10 * k,
{
    let mut r: Vec<i32> = Vec::new();
    let mut t: i32 = -180;
    while t < 180
        invariant
            -180 <= t <= 180,
            (t + 180) % 10 == 0,
            r@.len() == (t + 180) / 10,
            forall|k: int| 0 <= k < r@.len() ==> #[trigger] r@[k] == -180 + 10 * k,
        decreases 180 - t,
    {
        r.push(t);
        t = t + 10;
    }
    r
}

} // verus!
