//! Sets of edges, read out in the fixed order of the edges.

use crate::edge::{all_edges, EdgeDef};
use vstd::prelude::*;

verus! {

/// Whether the edges of `s` stand in strictly rising order.
///
/// Such a sequence names no edge twice.
pub open spec fn ascending(s: Seq<EdgeDef>) -> bool {
    forall|i: int, j: int| 0 <= i < j < s.len() ==> s[i].rank() < s[j].rank()
}

/// The one-edge sequence of `e` if `s` holds it, else the empty sequence.
pub open spec fn pick(s: Set<EdgeDef>, e: EdgeDef) -> Seq<EdgeDef> {
    if s.contains(e) {
        seq![e]
    } else {
        Seq::empty()
    }
}

/// The edges of `s`, each once, in the fixed order.
pub open spec fn canonical(s: Set<EdgeDef>) -> Seq<EdgeDef> {
    pick(s, EdgeDef::Left) + pick(s, EdgeDef::Right) + pick(s, EdgeDef::Top) + pick(
        s,
        EdgeDef::Bottom,
    )
}

/// The canonical sequence of a set rises strictly, names no edge twice and
/// names exactly the edges of the set.
pub proof fn lemma_canonical_sorted(s: Set<EdgeDef>)
    ensures
        ascending(canonical(s)),
        canonical(s).no_duplicates(),
        canonical(s).to_set() == s,
{
    let c = canonical(s);
    let l = pick(s, EdgeDef::Left).len() as int;
    let r = pick(s, EdgeDef::Right).len() as int;
    let t = pick(s, EdgeDef::Top).len() as int;
    assert forall|e: EdgeDef| s.contains(e) implies c.contains(e) by {
        // Where `e` stands in `c`.
        match e {
            EdgeDef::Left => assert(c[0] == e),
            EdgeDef::Right => assert(c[l] == e),
            EdgeDef::Top => assert(c[l + r] == e),
            EdgeDef::Bottom => assert(c[l + r + t] == e),
        }
    }
    assert(c.to_set() =~= s);
}

/// A strictly rising sequence of edges is the canonical sequence of the set of
/// its edges: a set of edges has one strictly rising sequence and no other.
pub proof fn lemma_ascending_canonical(a: Seq<EdgeDef>)
    requires
        ascending(a),
    ensures
        a == canonical(a.to_set()),
    decreases a.len(),
{
    if a.len() > 0 {
        let front = a.drop_last();
        let last = a.last();
        lemma_ascending_canonical(front);
        // `a` names the edges of `front` and `last`, and `last` ranks above all of `front`:
        // in the canonical sequence it comes after them.
        assert forall|e: EdgeDef| front.contains(e) implies a.contains(e) && e.rank()
            < last.rank() by {
            let k = choose|k: int| 0 <= k < front.len() && front[k] == e;
            assert(a[k] == e);
        }
        assert(a =~= canonical(a.to_set()));
    }
}

/// The canonical sequence of all edges is the four edges in order, and that of
/// no edge is empty.
pub proof fn lemma_canonical_bounds()
    ensures
        canonical(Set::<EdgeDef>::full()) == all_edges(),
        canonical(Set::<EdgeDef>::empty()) == Seq::<EdgeDef>::empty(),
{
    assert(canonical(Set::<EdgeDef>::full()) =~= all_edges());
    assert(canonical(Set::<EdgeDef>::empty()) =~= Seq::<EdgeDef>::empty());
}

/// A set of edges.
#[derive(Debug, Clone, Copy, PartialEq, Eq, Structural)]
pub struct EdgeSet {
    left: bool,
    right: bool,
    top: bool,
    bottom: bool,
}

impl View for EdgeSet {
    type V = Set<EdgeDef>;

    closed spec fn view(&self) -> Set<EdgeDef> {
        Set::new(|e: EdgeDef| self.holds(e))
    }
}

impl EdgeSet {
    closed spec fn holds(self, e: EdgeDef) -> bool {
        match e {
            EdgeDef::Left => self.left,
            EdgeDef::Right => self.right,
            EdgeDef::Top => self.top,
            EdgeDef::Bottom => self.bottom,
        }
    }

    /// The empty set.
    pub fn new() -> (s: Self)
        ensures
            s@ == Set::<EdgeDef>::empty(),
    {
        let s = EdgeSet { left: false, right: false, top: false, bottom: false };
        assert(s@ =~= Set::<EdgeDef>::empty());
        s
    }

    /// Whether the set holds `e`.
    pub fn contains(&self, e: EdgeDef) -> (b: bool)
        ensures
            b == self@.contains(e),
    {
        match e {
            EdgeDef::Left => self.left,
            EdgeDef::Right => self.right,
            EdgeDef::Top => self.top,
            EdgeDef::Bottom => self.bottom,
        }
    }

    /// Adds `e`; returns whether it was new to the set.
    pub fn insert(&mut self, e: EdgeDef) -> (added: bool)
        ensures
            final(self)@ == old(self)@.insert(e),
            added == !old(self)@.contains(e),
    {
        let had = self.contains(e);
        match e {
            EdgeDef::Left => self.left = true,
            EdgeDef::Right => self.right = true,
            EdgeDef::Top => self.top = true,
            EdgeDef::Bottom => self.bottom = true,
        }
        assert(self@ =~= old(self)@.insert(e));
        !had
    }

    /// Adds every edge of `edges`, in whatever order and however often it names them.
    pub fn extend(&mut self, edges: &[EdgeDef])
        ensures
            final(self)@ == old(self)@.union(edges@.to_set()),
    {
        let mut i: usize = 0;
        while i < edges.len()
            invariant
                i <= edges.len(),
                self@ == old(self)@.union(edges@.take(i as int).to_set()),
            decreases edges.len() - i,
        {
            self.insert(edges[i]);
            proof {
                // One edge more of `edges` is in the set.
                let before = edges@.take(i as int);
                let after = edges@.take(i + 1);
                assert(after[i as int] == edges@[i as int]);
                assert forall|e: EdgeDef| after.contains(e) <==> (before.contains(e) || e
                    == edges@[i as int]) by {}
            }
            i += 1;
        }
        assert(edges@.take(edges@.len() as int) =~= edges@);
    }

    /// The edges of the set, each once, in the fixed order.
    pub fn to_vec(&self) -> (v: Vec<EdgeDef>)
        ensures
            v@ == canonical(self@),
    {
        let mut v: Vec<EdgeDef> = Vec::new();
        if self.left {
            v.push(EdgeDef::Left);
        }
        if self.right {
            v.push(EdgeDef::Right);
        }
        if self.top {
            v.push(EdgeDef::Top);
        }
        if self.bottom {
            v.push(EdgeDef::Bottom);
        }
        assert(v@ =~= canonical(self@));
        v
    }
}

} // verus!
