//! Resolution of an overlay window's scrim configuration.
//!
//! A user describes where the overlay is anchored and how far it keeps from
//! the screen edges with a handful of optional, overlapping settings. This
//! crate collapses such a description into one unambiguous value: the anchored
//! edges in a fixed order and a margin for each of the four edges.

pub mod edge;
pub mod edge_set;
pub mod margins;
pub mod scrim;
pub mod config;
