//! The scrim's settings as the user writes them, and what they resolve to.
//!
//! The settings overlap: `fullscreen` and `fullscreen_margin` both anchor all
//! four edges, and a margin can come from `fullscreen_margin`, from `margins`
//! or from `margin`. Resolution settles every such overlap by a fixed
//! precedence and never rejects a combination.

use crate::edge::{all_edges, EdgeDef};
use crate::edge_set::{
    ascending, canonical, lemma_ascending_canonical, lemma_canonical_bounds,
    lemma_canonical_sorted, EdgeSet,
};
use crate::margins::{MarginInput, Margins, MarginsOpt};
use vstd::prelude::*;

verus! {

/// The scrim's settings as written. Every one of them may be left out.
#[derive(Debug, PartialEq, Eq)]
pub struct OverlayScrim {
    /// Anchor all four edges.
    pub fullscreen: bool,
    /// The edges to anchor, in any order. `fullscreen` and `fullscreen_margin`
    /// take precedence over it.
    pub anchors: Option<Vec<EdgeDef>>,
    /// One margin for all edges.
    pub margin: Option<i32>,
    /// Margins edge by edge, laid over `margin`.
    pub margins: Option<MarginsOpt>,
    /// Anchor all four edges and take the margins from here alone.
    pub fullscreen_margin: Option<MarginInput>,
}

/// What the settings of an [`OverlayScrim`] say.
pub struct OverlayScrimView {
    pub fullscreen: bool,
    pub anchors: Option<Seq<EdgeDef>>,
    pub margin: Option<i32>,
    pub margins: Option<MarginsOpt>,
    pub fullscreen_margin: Option<MarginInput>,
}

/// The resolved scrim: the anchored edges and the margin of every edge.
#[derive(Debug, PartialEq, Eq)]
pub struct ResolvedScrim {
    /// The anchored edges, each once, in the fixed order of the edges.
    pub edges: Vec<EdgeDef>,
    /// The margin of each edge, anchored or not.
    pub margins: Margins,
}

/// What a [`ResolvedScrim`] holds.
pub struct ResolvedScrimView {
    pub edges: Seq<EdgeDef>,
    pub margins: Margins,
}

impl View for OverlayScrim {
    type V = OverlayScrimView;

    open spec fn view(&self) -> OverlayScrimView {
        OverlayScrimView {
            fullscreen: self.fullscreen,
            anchors: match self.anchors {
                Some(a) => Some(a@),
                None => None,
            },
            margin: self.margin,
            margins: self.margins,
            fullscreen_margin: self.fullscreen_margin,
        }
    }
}

impl View for ResolvedScrim {
    type V = ResolvedScrimView;

    open spec fn view(&self) -> ResolvedScrimView {
        ResolvedScrimView { edges: self.edges@, margins: self.margins }
    }
}

impl OverlayScrimView {
    /// The settings with everything left out.
    pub open spec fn empty() -> OverlayScrimView {
        OverlayScrimView {
            fullscreen: false,
            anchors: None,
            margin: None,
            margins: None,
            fullscreen_margin: None,
        }
    }

    /// The set of anchored edges: all four where `fullscreen` is set or
    /// `fullscreen_margin` is given, else the edges that `anchors` names, else none.
    pub open spec fn anchored(self) -> Set<EdgeDef> {
        if self.fullscreen || self.fullscreen_margin is Some {
            Set::full()
        } else {
            match self.anchors {
                Some(a) => a.to_set(),
                None => Set::empty(),
            }
        }
    }

    /// The margin of edge `e`, from the first of these that gives one:
    /// `fullscreen_margin`, which where it is given stands alone and leaves an
    /// edge it does not name at zero; `margins`; `margin`; zero.
    pub open spec fn margin_at(self, e: EdgeDef) -> i32 {
        match self.fullscreen_margin {
            Some(MarginInput::All(v)) => v,
            Some(MarginInput::Per(per)) => match per.at(e) {
                Some(v) => v,
                None => 0,
            },
            None => {
                let laid = match self.margins {
                    Some(per) => per.at(e),
                    None => None,
                };
                match laid {
                    Some(v) => v,
                    None => match self.margin {
                        Some(v) => v,
                        None => 0,
                    },
                }
            },
        }
    }

    /// The margins of all four edges.
    pub open spec fn resolved_margins(self) -> Margins {
        Margins {
            left: self.margin_at(EdgeDef::Left),
            right: self.margin_at(EdgeDef::Right),
            top: self.margin_at(EdgeDef::Top),
            bottom: self.margin_at(EdgeDef::Bottom),
        }
    }

    /// What the settings resolve to.
    pub open spec fn resolved(self) -> ResolvedScrimView {
        ResolvedScrimView { edges: canonical(self.anchored()), margins: self.resolved_margins() }
    }
}

impl Clone for OverlayScrim {
    fn clone(&self) -> (c: Self)
        ensures
            c@ == self@,
    {
        let anchors = match &self.anchors {
            Some(a) => Some(copy_edges(a)),
            None => None,
        };
        OverlayScrim {
            fullscreen: self.fullscreen,
            anchors,
            margin: self.margin,
            margins: self.margins,
            fullscreen_margin: self.fullscreen_margin,
        }
    }
}

impl Clone for ResolvedScrim {
    fn clone(&self) -> (c: Self)
        ensures
            c@ == self@,
    {
        ResolvedScrim { edges: copy_edges(&self.edges), margins: self.margins }
    }
}

fn copy_edges(edges: &Vec<EdgeDef>) -> (c: Vec<EdgeDef>)
    ensures
        c@ == edges@,
{
    let c = edges.clone();
    assert(c@ =~= edges@);
    c
}

impl Default for OverlayScrim {
    fn default() -> (s: Self)
        ensures
            s@ == OverlayScrimView::empty(),
    {
        OverlayScrim {
            fullscreen: false,
            anchors: None,
            margin: None,
            margins: None,
            fullscreen_margin: None,
        }
    }
}

impl ResolvedScrim {
    /// Whether the edges stand in strictly rising order, so that none is named twice.
    pub open spec fn well_formed(&self) -> bool {
        ascending(self.edges@)
    }
}

impl OverlayScrim {
    /// Resolves the settings.
    ///
    /// The edges are all four where `fullscreen` is set or `fullscreen_margin`
    /// is given, else those that `anchors` names, each once and in the fixed
    /// order of the edges. The margin of an edge comes from `fullscreen_margin`
    /// alone where that is given, else from `margins`, else from `margin`, else
    /// it is zero. No combination of settings is rejected.
    pub fn resolve(&self) -> (r: ResolvedScrim)
        ensures
            r@ == self@.resolved(),
            r.well_formed(),
    {
        let mut edges = EdgeSet::new();
        if self.fullscreen || self.fullscreen_margin.is_some() {
            edges.insert(EdgeDef::Left);
            edges.insert(EdgeDef::Right);
            edges.insert(EdgeDef::Top);
            edges.insert(EdgeDef::Bottom);
            assert(edges@ =~= Set::<EdgeDef>::full());
        } else if let Some(a) = &self.anchors {
            edges.extend(a.as_slice());
            assert(edges@ =~= a@.to_set());
        }
        let mut margins = Margins::default();
        // `fullscreen_margin` stands alone: `margin` and `margins` are not read.
        if let Some(fm) = &self.fullscreen_margin {
            match fm {
                MarginInput::All(v) => margins = Margins::all(*v),
                MarginInput::Per(per) => margins.set_if_some(per),
            }
        } else {
            if let Some(v) = self.margin {
                margins = Margins::all(v);
            }
            if let Some(per) = &self.margins {
                margins.set_if_some(per);
            }
        }
        proof {
            lemma_canonical_sorted(edges@);
        }
        ResolvedScrim { edges: edges.to_vec(), margins }
    }
}

/// Two resolutions of settings that say the same hold the same edges in the
/// same order and the same margins.
pub proof fn lemma_resolve_deterministic(
    a: OverlayScrim,
    b: OverlayScrim,
    ra: ResolvedScrim,
    rb: ResolvedScrim,
)
    requires
        a@ == b@,
        ra@ == a@.resolved(),
        rb@ == b@.resolved(),
    ensures
        ra.edges@ == rb.edges@,
        ra.margins == rb.margins,
{
}

/// The resolved edges rise strictly in the fixed order `Left`, `Right`, `Top`,
/// `Bottom`, name no edge twice, and are exactly the anchored edges.
pub proof fn lemma_resolved_edges_canonical(raw: OverlayScrimView)
    ensures
        ascending(raw.resolved().edges),
        raw.resolved().edges.no_duplicates(),
        raw.resolved().edges.to_set() == raw.anchored(),
{
    lemma_canonical_sorted(raw.anchored());
}

/// The resolved margin of each edge is the one that the precedence among
/// `fullscreen_margin`, `margins` and `margin` gives that edge.
pub proof fn lemma_resolved_margin_at(raw: OverlayScrimView, e: EdgeDef)
    ensures
        raw.resolved().margins.at(e) == raw.margin_at(e),
{
}

/// The settings have one resolution and no other: a value whose edges rise
/// strictly and are exactly the anchored edges, and whose margins are those of
/// the settings edge by edge, is what the settings resolve to.
pub proof fn lemma_resolution_unique(raw: OverlayScrimView, out: ResolvedScrimView)
    requires
        ascending(out.edges),
        out.edges.to_set() == raw.anchored(),
        forall|e: EdgeDef| out.margins.at(e) == raw.margin_at(e),
    ensures
        out == raw.resolved(),
{
    lemma_ascending_canonical(out.edges);
    assert(out.margins.at(EdgeDef::Left) == raw.margin_at(EdgeDef::Left));
    assert(out.margins.at(EdgeDef::Right) == raw.margin_at(EdgeDef::Right));
    assert(out.margins.at(EdgeDef::Top) == raw.margin_at(EdgeDef::Top));
    assert(out.margins.at(EdgeDef::Bottom) == raw.margin_at(EdgeDef::Bottom));
}

/// The order in which `anchors` names the edges, and how often it names one,
/// does not change what the settings resolve to.
pub proof fn lemma_anchor_order_irrelevant(a: OverlayScrimView, b: OverlayScrimView)
    requires
        a.anchors is Some,
        b.anchors is Some,
        a.anchors.unwrap().to_set() == b.anchors.unwrap().to_set(),
        a.fullscreen == b.fullscreen,
        a.margin == b.margin,
        a.margins == b.margins,
        a.fullscreen_margin == b.fullscreen_margin,
    ensures
        a.resolved() == b.resolved(),
{
}

/// Where `fullscreen` is set or `fullscreen_margin` is given, all four edges
/// are anchored, whatever `anchors` names.
pub proof fn lemma_fullscreen_anchors_all(raw: OverlayScrimView)
    requires
        raw.fullscreen || raw.fullscreen_margin is Some,
    ensures
        raw.resolved().edges == all_edges(),
{
    lemma_canonical_bounds();
}

/// Where neither `fullscreen` is set nor `fullscreen_margin` is given, the
/// edges that `anchors` names are anchored, and without `anchors` none is.
pub proof fn lemma_anchors_taken(raw: OverlayScrimView)
    requires
        !raw.fullscreen,
        raw.fullscreen_margin is None,
    ensures
        raw.anchors matches Some(a) ==> raw.resolved().edges == canonical(a.to_set()),
        raw.anchors is None ==> raw.resolved().edges == Seq::<EdgeDef>::empty(),
{
    lemma_canonical_bounds();
}

/// Where `fullscreen_margin` is given, it alone decides the result: all four
/// edges are anchored, and `margin` and `margins` change no margin.
pub proof fn lemma_fullscreen_margin_overrides(a: OverlayScrimView, b: OverlayScrimView)
    requires
        a.fullscreen_margin is Some,
        a.fullscreen_margin == b.fullscreen_margin,
    ensures
        a.resolved() == b.resolved(),
        a.resolved().margins == (match a.fullscreen_margin.unwrap() {
            MarginInput::All(v) => Margins::uniform(v),
            MarginInput::Per(per) => Margins::zero().overlaid(per),
        }),
{
}

/// The margins do not depend on which edges are anchored: settings that agree
/// in `margin`, `margins` and `fullscreen_margin` resolve to the same margins.
pub proof fn lemma_margins_ignore_anchoring(a: OverlayScrimView, b: OverlayScrimView)
    requires
        a.margin == b.margin,
        a.margins == b.margins,
        a.fullscreen_margin == b.fullscreen_margin,
    ensures
        a.resolved().margins == b.resolved().margins,
{
}

/// Without `fullscreen_margin` the margins are built in layers: zero, then
/// `margin` at every edge, then the values of `margins` laid over that.
pub proof fn lemma_margin_layers(raw: OverlayScrimView)
    requires
        raw.fullscreen_margin is None,
    ensures
        raw.resolved().margins == (match raw.margin {
            Some(v) => Margins::uniform(v),
            None => Margins::zero(),
        }).overlaid(
            match raw.margins {
                Some(per) => per,
                None => MarginsOpt::none(),
            },
        ),
{
}

} // verus!
