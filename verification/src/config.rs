//! The configuration as a whole.

pub use crate::edge::EdgeDef;
pub use crate::margins::{MarginInput, Margins, MarginsOpt};
pub use crate::scrim::{OverlayScrim, ResolvedScrim};
use crate::scrim::{OverlayScrimView, ResolvedScrimView};
use vstd::prelude::*;

verus! {

/// The configuration as written.
#[derive(Debug, PartialEq, Eq)]
pub struct Configuration {
    pub overlay_scrim: OverlayScrim,
}

/// What a [`Configuration`] says.
pub struct ConfigurationView {
    pub overlay_scrim: OverlayScrimView,
}

/// The configuration with every setting resolved.
#[derive(Debug, PartialEq, Eq)]
pub struct ResolvedConfig {
    pub scrim: ResolvedScrim,
}

/// What a [`ResolvedConfig`] holds.
pub struct ResolvedConfigView {
    pub scrim: ResolvedScrimView,
}

impl View for Configuration {
    type V = ConfigurationView;

    open spec fn view(&self) -> ConfigurationView {
        ConfigurationView { overlay_scrim: self.overlay_scrim@ }
    }
}

impl View for ResolvedConfig {
    type V = ResolvedConfigView;

    open spec fn view(&self) -> ResolvedConfigView {
        ResolvedConfigView { scrim: self.scrim@ }
    }
}

impl ConfigurationView {
    /// What the configuration resolves to: each part resolved by itself.
    pub open spec fn resolved(self) -> ResolvedConfigView {
        ResolvedConfigView { scrim: self.overlay_scrim.resolved() }
    }
}

impl Clone for Configuration {
    fn clone(&self) -> (c: Self)
        ensures
            c@ == self@,
    {
        Configuration { overlay_scrim: self.overlay_scrim.clone() }
    }
}

impl Clone for ResolvedConfig {
    fn clone(&self) -> (c: Self)
        ensures
            c@ == self@,
    {
        ResolvedConfig { scrim: self.scrim.clone() }
    }
}

impl ResolvedConfig {
    /// Whether every part is well formed.
    pub open spec fn well_formed(&self) -> bool {
        self.scrim.well_formed()
    }
}

impl Configuration {
    /// Resolves every part of the configuration. Every configuration resolves.
    pub fn resolve(&self) -> (r: ResolvedConfig)
        ensures
            r@ == self@.resolved(),
            r.well_formed(),
    {
        ResolvedConfig { scrim: self.overlay_scrim.resolve() }
    }
}

} // verus!
