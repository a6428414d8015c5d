//! Composable geometry-transforming operations over a path-based vector
//! scene: repetition, circular repetition, bounding boxes, transform-aware
//! merging, arc-length resampling, spline fitting and point instancing,
//! with the structural behaviour of every operation stated and verified.

use vstd::prelude::*;

pub mod geometry;
pub mod path;
pub mod scene;
pub mod graphic;
pub mod nodes;
pub mod laws;

verus! {

/// Copy a vector of plain copyable values element by element.
pub fn copy_vec<T: Copy>(v: &Vec<T>) -> (r: Vec<T>)
    ensures
        r@ == v@,
{
    let mut r: Vec<T> = Vec::new();
    let mut i: usize = 0;
    while i < v.len()
        invariant
            i <= v.len(),
            r@ =~= v@.take(i as int),
        decreases v.len() - i,
    {
        r.push(v[i]);
        assert(v@.take(i as int + 1) =~= v@.take(i as int).push(v@[i as int]));
        i = i + 1;
    }
    assert(v@.take(v@.len() as int) =~= v@);
    r
}

} // verus!
