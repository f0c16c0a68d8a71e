//! Margins: the distance a window keeps from each screen edge.

use crate::edge::EdgeDef;
use vstd::prelude::*;

verus! {

/// A margin for each of the four edges.
#[derive(Debug, Clone, Copy, PartialEq, Eq, Structural)]
pub struct Margins {
    pub left: i32,
    pub right: i32,
    pub top: i32,
    pub bottom: i32,
}

/// Margins for some of the four edges: an edge without a value is left as it is.
#[derive(Debug, Clone, Copy, PartialEq, Eq)]
pub struct MarginsOpt {
    pub left: Option<i32>,
    pub right: Option<i32>,
    pub top: Option<i32>,
    pub bottom: Option<i32>,
}

/// Margins given in short: one value for all edges, or values edge by edge.
#[derive(Debug, Clone, Copy, PartialEq, Eq)]
pub enum MarginInput {
    All(i32),
    Per(MarginsOpt),
}

impl MarginsOpt {
    /// The value given for edge `e`, if any.
    pub open spec fn at(self, e: EdgeDef) -> Option<i32> {
        match e {
            EdgeDef::Left => self.left,
            EdgeDef::Right => self.right,
            EdgeDef::Top => self.top,
            EdgeDef::Bottom => self.bottom,
        }
    }

    /// Values for no edge.
    pub open spec fn none() -> MarginsOpt {
        MarginsOpt { left: None, right: None, top: None, bottom: None }
    }
}

impl Default for MarginsOpt {
    fn default() -> (m: Self)
        ensures
            m == MarginsOpt::none(),
    {
        MarginsOpt { left: None, right: None, top: None, bottom: None }
    }
}

impl Margins {
    /// The margin at edge `e`.
    pub open spec fn at(self, e: EdgeDef) -> i32 {
        match e {
            EdgeDef::Left => self.left,
            EdgeDef::Right => self.right,
            EdgeDef::Top => self.top,
            EdgeDef::Bottom => self.bottom,
        }
    }

    /// The margins that are `v` at every edge.
    pub open spec fn uniform(v: i32) -> Margins {
        Margins { left: v, right: v, top: v, bottom: v }
    }

    /// The margins that are zero at every edge.
    pub open spec fn zero() -> Margins {
        Margins::uniform(0)
    }

    /// These margins with the values of `per` laid over them: at each edge the
    /// value of `per` where it has one, else the margin as it was.
    pub open spec fn overlaid(self, per: MarginsOpt) -> Margins {
        Margins {
            left: if let Some(v) = per.left { v } else { self.left },
            right: if let Some(v) = per.right { v } else { self.right },
            top: if let Some(v) = per.top { v } else { self.top },
            bottom: if let Some(v) = per.bottom { v } else { self.bottom },
        }
    }

    /// The same margin `v` at every edge.
    pub fn all(v: i32) -> (m: Self)
        ensures
            m == Margins::uniform(v),
    {
        Self { left: v, right: v, top: v, bottom: v }
    }

    /// Overwrites the margin of each edge for which `other` has a value.
    pub fn set_if_some(&mut self, other: &MarginsOpt)
        ensures
            *final(self) == old(self).overlaid(*other),
    {
        if let Some(v) = other.left {
            self.left = v;
        }
        if let Some(v) = other.right {
            self.right = v;
        }
        if let Some(v) = other.top {
            self.top = v;
        }
        if let Some(v) = other.bottom {
            self.bottom = v;
        }
    }
}

impl Default for Margins {
    fn default() -> (m: Self)
        ensures
            m == Margins::zero(),
    {
        Margins { left: 0, right: 0, top: 0, bottom: 0 }
    }
}

/// Laying values over margins changes the edges that have a value and no other.
pub proof fn lemma_overlaid_at(base: Margins, per: MarginsOpt, e: EdgeDef)
    ensures
        base.overlaid(per).at(e) == (match per.at(e) {
            Some(v) => v,
            None => base.at(e),
        }),
{
}

} // verus!
