//! Grouping a mesh's flat vertex-index buffer into triangles.
//!
//! A decoded mesh arrives as a vertex table and a flat list of vertex
//! indices, three consecutive indices per triangle. Decoding the mesh file
//! and transforming the vertex positions are floating-point work done outside
//! this library; the grouping of the index buffer is done here.

use vstd::prelude::*;

verus! {

/// Groups a flat vertex-index buffer into triangles: entry `t` of the result
/// is the `t`-th consecutive index triple of the buffer.
///
/// A buffer whose length is not a multiple of three, or that names a vertex
/// the table does not have, is a malformed mesh; the caller rejects it before
/// this point.
pub fn group_triangle_indices(indices: &Vec<usize>, vertex_count: usize) -> (triangles: Vec<
    (usize, usize, usize),
>)
    requires
        indices@.len() % 3 == 0,
        forall|i: int| 0 <= i < indices@.len() ==> #[trigger] indices@[i] < vertex_count,
    ensures
        triangles@.len() == indices@.len() / 3,
        forall|t: int| 0 <= t < triangles@.len() ==> #[trigger] triangles@[t] == (
            indices@[3 * t],
            indices@[3 * t + 1],
            indices@[3 * t + 2],
        ),
{
    let n = indices.len() / 3;
    proof {
        assert(indices@.len() == 3 * (indices@.len() / 3) + indices@.len() % 3);
    }
    let mut triangles: Vec<(usize, usize, usize)> = Vec::new();
    let mut t: usize = 0;
    while t < n
        invariant
            t <= n,
            n == indices@.len() / 3,
            indices@.len() == 3 * n,
            indices@.len() <= usize::MAX,
            triangles@.len() == t,
            forall|k: int| 0 <= k < t ==> #[trigger] triangles@[k] == (
                indices@[3 * k],
                indices@[3 * k + 1],
                indices@[3 * k + 2],
            ),
        decreases n - t,
    {
        let a = indices[3 * t];
        let b = indices[3 * t + 1];
        let c = indices[3 * t + 2];
        triangles.push((a, b, c));
        t = t + 1;
    }
    triangles
}

} // verus!
