//! The broad phase's candidate protocol, over shape indices.
//!
//! A broad phase answers "which surfaces might a ray hit". Its geometric side
//! (bounding volumes, ray/box overlap) runs on floating-point coordinates and
//! stays outside this library; what stands here is the index bookkeeping both
//! strategies share — each surface is named by its position in the scene's
//! surface table — and the exhaustive strategy itself, which is pure index
//! logic: every surface is a candidate for every ray. Its contract makes the
//! soundness obligation of any broad phase checkable: a candidate list that
//! holds every index can have no false negative.

use vstd::prelude::*;

verus! {

/// Pairs a surface — named by its position in the scene's surface table —
/// with the private index an acceleration structure assigns to it in `build`.
#[derive(Debug, Clone, Copy, PartialEq, Eq, Structural)]
pub struct BroadPhaseShape {
    /// Position of the surface in the scene's surface table.
    pub shape: usize,
    /// Index recorded by the acceleration structure during its build step.
    pub node_index: usize,
}

impl BroadPhaseShape {
    /// Wraps a surface before any build step has run; the structure-private
    /// index starts at zero, as an acceleration structure overwrites it.
    pub fn new(shape: usize) -> (s: BroadPhaseShape)
        ensures
            s.shape == shape,
            s.node_index == 0,
    {
        BroadPhaseShape { shape, node_index: 0 }
    }

    /// Records the index the acceleration structure assigned to this shape.
    pub fn set_bh_node_index(&mut self, i: usize)
        ensures
            final(self).node_index == i,
            final(self).shape == old(self).shape,
    {
        self.node_index = i;
    }

    /// The index the acceleration structure assigned to this shape.
    pub fn bh_node_index(&self) -> (i: usize)
        ensures
            i == self.node_index,
    {
        self.node_index
    }
}

/// The exhaustive broad-phase strategy: it builds no structure and reports
/// every surface as a candidate for every ray. It is the correctness baseline
/// the hierarchical strategy is held against.
#[derive(Debug, Clone, Copy, PartialEq, Eq, Structural)]
pub struct NoOpBroadPhase;

impl Default for NoOpBroadPhase {
    fn default() -> (s: NoOpBroadPhase)
        ensures
            s == (NoOpBroadPhase {}),
    {
        NoOpBroadPhase {}
    }
}

impl NoOpBroadPhase {
    /// The build step of the exhaustive strategy: it only numbers the shapes,
    /// recording position `i` as the structure-private index of shape `i`;
    /// which surface each entry names is left untouched.
    pub fn build(&mut self, shapes: &mut Vec<BroadPhaseShape>)
        ensures
            final(shapes)@.len() == old(shapes)@.len(),
            forall|i: int| 0 <= i < old(shapes)@.len()
                ==> #[trigger] final(shapes)@[i].node_index == i,
            forall|i: int| 0 <= i < old(shapes)@.len()
                ==> #[trigger] final(shapes)@[i].shape == old(shapes)@[i].shape,
    {
        let n = shapes.len();
        let mut idx: usize = 0;
        while idx < n
            invariant
                idx <= n,
                n == shapes@.len(),
                shapes@.len() == old(shapes)@.len(),
                forall|i: int| 0 <= i < idx ==> #[trigger] shapes@[i].node_index == i,
                forall|i: int| 0 <= i < shapes@.len()
                    ==> #[trigger] shapes@[i].shape == old(shapes)@[i].shape,
            decreases n - idx,
        {
            let mut entry = shapes[idx];
            entry.set_bh_node_index(idx);
            shapes.set(idx, entry);
            idx = idx + 1;
        }
    }

    /// The query step of the exhaustive strategy: whatever the ray, every
    /// shape index is a candidate, in table order. No ray parameter is taken,
    /// since the answer does not depend on one.
    pub fn trace(&self, shapes: &Vec<BroadPhaseShape>) -> (candidates: Vec<usize>)
        ensures
            candidates@.len() == shapes@.len(),
            forall|i: int| 0 <= i < shapes@.len() ==> #[trigger] candidates@[i] == i,
    {
        let mut candidates: Vec<usize> = Vec::new();
        let mut idx: usize = 0;
        while idx < shapes.len()
            invariant
                idx <= shapes@.len(),
                candidates@.len() == idx,
                forall|i: int| 0 <= i < idx ==> #[trigger] candidates@[i] == i,
            decreases shapes@.len() - idx,
        {
            candidates.push(idx);
            idx = idx + 1;
        }
        candidates
    }
}

/// Broad-phase soundness, shown for the exhaustive strategy: a broad phase
/// must never drop a surface the ray truly intersects. Whatever set of shape
/// indices truly intersect a ray — any subset of the scene's indices — each
/// of them occurs in a candidate list that holds every index, as the list
/// `NoOpBroadPhase::trace` returns does.
pub proof fn lemma_exhaustive_no_false_negatives(
    candidates: Seq<usize>,
    count: nat,
    intersecting: Set<usize>,
)
    requires
        candidates.len() == count,
        forall|i: int| 0 <= i < count ==> #[trigger] candidates[i] == i,
        forall|s: usize| intersecting.contains(s) ==> s < count,
    ensures
        forall|s: usize| intersecting.contains(s) ==> candidates.contains(s),
{
    assert forall|s: usize| intersecting.contains(s) implies candidates.contains(s) by {
        assert(candidates[s as int] == s);
    }
}

} // verus!
