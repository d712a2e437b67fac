//! A small local registry of named identities (name + email) kept in a
//! per-user database, with a startup reconciliation step that absorbs the
//! version-control tool's currently configured identity, and a selection
//! workflow that marks one identity as selected and hands its values back
//! for the caller to push into the external tool's global configuration.

pub mod display;
pub mod laws;
pub mod model;
pub mod store;
pub mod workflow;
