//! Selection of the closest hit. Every object of the scene is tested in
//! turn against one shared hit record, and a test updates the record only
//! when it finds a strictly closer valid hit. The closest object is then the
//! last one whose test updated the record.

use vstd::prelude::*;

verus! {

/// Given, for each object in scan order, whether its intersection test
/// tightened the shared hit record, the index of the object that holds the
/// closest hit: the last one that tightened it, or `None` if none did.
pub fn closest_hit_index(tightened: &Vec<bool>) -> (r: Option<usize>)
    ensures
        r is None <==> forall|i: int| 0 <= i < tightened@.len() ==> !#[trigger] tightened@[i],
        r matches Some(k) ==> {
            &&& k < tightened@.len()
            &&& tightened@[k as int]
            &&& forall|i: int| k < i < tightened@.len() ==> !#[trigger] tightened@[i]
        },
{
    let mut hit: Option<usize> = None;
    let mut i: usize = 0;
    while i < tightened.len()
        invariant
            i <= tightened@.len(),
            hit is None <==> forall|j: int| 0 <= j < i ==> !#[trigger] tightened@[j],
            hit matches Some(k) ==> {
                &&& k < i
                &&& tightened@[k as int]
                &&& forall|j: int| k < j < i ==> !#[trigger] tightened@[j]
            },
        decreases tightened@.len() - i,
    {
        if tightened[i] {
            hit = Some(i);
        }
        i = i + 1;
    }
    hit
}

} // verus!
