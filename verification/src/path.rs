//! Index arithmetic of camera path interpolation: which keyframes around a
//! segment shape the curve through it.
use vstd::prelude::*;

verus! {

/// The four keyframes around the segment from keyframe `i1` to the next one:
/// the one before (or `i1` itself at the start), both ends, and the one after
/// (or the last keyframe at the end).
pub open spec fn catmull_neighbor_indices(len: usize, i1: usize) -> (usize, usize, usize, usize) {
    let i0 = if i1 == 0 {
        0
    } else {
        (i1 - 1) as usize
    };
    let i2 = (i1 + 1) as usize;
    let i3 = if i2 + 1 >= len {
        (len - 1) as usize
    } else {
        (i2 + 1) as usize
    };
    (i0, i1, i2, i3)
}

/// Indices of the four keyframes around the segment from keyframe `i1` to
/// the next one, in a path of `len` keyframes.
pub fn get_catmull_neighbors(len: usize, i1: usize) -> (ix: (usize, usize, usize, usize))
    requires
        i1 + 1 < len,
    ensures
        ix == catmull_neighbor_indices(len, i1),
        ix.0 <= ix.1 < ix.2 <= ix.3 < len,
{
    let i0 = if i1 == 0 {
        0
    } else {
        i1 - 1
    };
    let i2 = i1 + 1;
    let i3 = if i2 + 1 >= len {
        len - 1
    } else {
        i2 + 1
    };
    (i0, i1, i2, i3)
}

/// Indices of the keyframes around the segment from `i1` to `i2`, ends
/// repeated where neighbours are missing: `i1 - 1` saturating at 0, and
/// `i2 + 1` capped at the last keyframe.
pub fn segment_neighbors(len: usize, i1: usize, i2: usize) -> (ix: (usize, usize))
    requires
        i1 < len,
        i2 < len,
    ensures
        ix.0 == if i1 == 0 {
            0
        } else {
            i1 - 1
        },
        ix.1 == if i2 + 1 < len {
            i2 + 1
        } else {
            len - 1
        },
        ix.0 < len,
        ix.1 < len,
{
    let i0 = if i1 == 0 {
        0
    } else {
        i1 - 1
    };
    let i3 = if i2 + 1 < len {
        i2 + 1
    } else {
        len - 1
    };
    (i0, i3)
}

} // verus!
