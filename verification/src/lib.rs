//! Builds a relay's public capability document from its private settings.
//!
//! A relay advertises its identity, the protocol extensions it supports, and
//! its payment policy in a metadata document that clients fetch before they
//! connect.  The [`info::RelayInfo`] document is derived from a
//! [`settings::Settings`] snapshot by a pure, total transformation whose
//! behaviour is pinned down, field for field, by the contracts in [`info`];
//! the properties that hold of every document it can produce are proved in
//! [`laws`].

pub mod info;
pub mod laws;
pub mod settings;
