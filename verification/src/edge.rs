//! The four screen edges and their fixed order.

use std::cmp::Ordering;
use vstd::prelude::*;
use vstd::std_specs::cmp::PartialOrdSpec;

verus! {

/// A screen edge that a window can be anchored to.
///
/// The edges are ordered `Left < Right < Top < Bottom`.
#[derive(Debug, Clone, Copy, PartialEq, Eq, Structural, Ord, Hash)]
pub enum EdgeDef {
    Left,
    Right,
    Top,
    Bottom,
}

impl EdgeDef {
    /// Position of the edge in the fixed order, from 0 for `Left` to 3 for `Bottom`.
    pub open spec fn rank(self) -> int {
        match self {
            EdgeDef::Left => 0,
            EdgeDef::Right => 1,
            EdgeDef::Top => 2,
            EdgeDef::Bottom => 3,
        }
    }

    fn position(&self) -> (p: u8)
        ensures
            p == self.rank(),
    {
        match self {
            EdgeDef::Left => 0,
            EdgeDef::Right => 1,
            EdgeDef::Top => 2,
            EdgeDef::Bottom => 3,
        }
    }
}

impl PartialOrd for EdgeDef {
    fn partial_cmp(&self, other: &Self) -> (r: Option<Ordering>) {
        let a: u8 = self.position();
        let b: u8 = other.position();
        if a < b {
            Some(Ordering::Less)
        } else if a == b {
            Some(Ordering::Equal)
        } else {
            Some(Ordering::Greater)
        }
    }
}

impl vstd::std_specs::cmp::PartialOrdSpecImpl for EdgeDef {
    open spec fn obeys_partial_cmp_spec() -> bool {
        true
    }

    open spec fn partial_cmp_spec(&self, other: &Self) -> Option<Ordering> {
        if self.rank() < other.rank() {
            Some(Ordering::Less)
        } else if self.rank() == other.rank() {
            Some(Ordering::Equal)
        } else {
            Some(Ordering::Greater)
        }
    }
}

/// All four edges in their fixed order.
pub open spec fn all_edges() -> Seq<EdgeDef> {
    seq![EdgeDef::Left, EdgeDef::Right, EdgeDef::Top, EdgeDef::Bottom]
}

/// The rank tells the edges apart, and the four edges are all there are.
pub proof fn lemma_rank_injective(a: EdgeDef, b: EdgeDef)
    ensures
        0 <= a.rank() < 4,
        a.rank() == b.rank() <==> a == b,
        all_edges()[a.rank()] == a,
{
}

/// The order of the edges is total: two edges always compare, as equal only
/// where they are the same edge, and as less one way exactly where they
/// compare as greater the other way. It is transitive too.
pub proof fn lemma_edge_order_total(a: EdgeDef, b: EdgeDef, c: EdgeDef)
    ensures
        a.partial_cmp_spec(&b) is Some,
        a.partial_cmp_spec(&b) == Some(Ordering::Equal) <==> a == b,
        a.partial_cmp_spec(&b) == Some(Ordering::Less) <==> b.partial_cmp_spec(&a) == Some(
            Ordering::Greater,
        ),
        a.partial_cmp_spec(&b) == Some(Ordering::Less) && b.partial_cmp_spec(&c) == Some(
            Ordering::Less,
        ) ==> a.partial_cmp_spec(&c) == Some(Ordering::Less),
{
}

} // verus!
