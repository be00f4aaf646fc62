//! Which screen edges the background surface is anchored to.

use vstd::prelude::*;

verus! {

/// One screen edge that the surface may be anchored to.
#[derive(Clone, Copy, PartialEq, Eq, Structural, Debug)]
pub enum Edge {
    Top,
    Bottom,
    Left,
    Right,
}

/// A set of anchor edges: the logical form of the display server's anchor
/// bitset, one flag per edge. Anchoring to all four edges fills the output.
#[derive(Clone, Copy, PartialEq, Eq, Structural, Debug)]
pub struct AnchorSet {
    pub top: bool,
    pub bottom: bool,
    pub left: bool,
    pub right: bool,
}

impl AnchorSet {
    /// Whether the given edge is in the set.
    pub open spec fn has(self, e: Edge) -> bool {
        match e {
            Edge::Top => self.top,
            Edge::Bottom => self.bottom,
            Edge::Left => self.left,
            Edge::Right => self.right,
        }
    }

    /// The set with no edges.
    pub fn empty() -> (r: AnchorSet)
        ensures
            forall|e: Edge| !r.has(e),
    {
        AnchorSet { top: false, bottom: false, left: false, right: false }
    }

    /// The set holding exactly one edge.
    pub fn from_edge(e: Edge) -> (r: AnchorSet)
        ensures
            forall|e2: Edge| r.has(e2) <==> e2 == e,
    {
        let mut r = AnchorSet::empty();
        r.insert(e);
        r
    }

    /// Adds one edge; every other edge keeps its membership.
    pub fn insert(&mut self, e: Edge)
        ensures
            final(self).has(e),
            forall|e2: Edge| e2 != e ==> final(self).has(e2) == old(self).has(e2),
    {
        match e {
            Edge::Top => self.top = true,
            Edge::Bottom => self.bottom = true,
            Edge::Left => self.left = true,
            Edge::Right => self.right = true,
        }
    }

    /// Folds a list of edges into one set: an edge is in the result exactly
    /// when it occurs in the list.
    pub fn combine(edges: &Vec<Edge>) -> (r: AnchorSet)
        ensures
            forall|e: Edge| r.has(e) <==> edges@.contains(e),
    {
        let mut r = AnchorSet::empty();
        let mut k: usize = 0;
        while k < edges.len()
            invariant
                k <= edges@.len(),
                forall|e: Edge| r.has(e) <==> edges@.take(k as int).contains(e),
            decreases edges@.len() - k,
        {
            let ghost x = edges@[k as int];
            r.insert(edges[k]);
            proof {
                assert forall|e: Edge| r.has(e) <==> edges@.take(k as int + 1).contains(e) by {
                    if r.has(e) && e != x {
                        let i = choose|i: int|
                            0 <= i < k && edges@.take(k as int)[i] == e;
                        assert(edges@.take(k as int + 1)[i] == e);
                    }
                    if e == x {
                        assert(edges@.take(k as int + 1)[k as int] == e);
                    }
                    if edges@.take(k as int + 1).contains(e) && e != x {
                        let i = choose|i: int|
                            0 <= i < k + 1 && #[trigger] edges@.take(k as int + 1)[i] == e;
                        assert(edges@.take(k as int)[i] == e);
                        assert(edges@.take(k as int).contains(e));
                    }
                }
            }
            k = k + 1;
        }
        proof {
            assert(edges@.take(edges@.len() as int) =~= edges@);
        }
        r
    }
}

} // verus!
