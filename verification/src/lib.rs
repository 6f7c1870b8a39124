//! Fuzzy matching for a file-search host: the settings, the rule that makes
//! them concrete for the native core, the matching bridge over the match
//! engine, and the life cycle of the extension.

use vstd::prelude::*;

pub mod app;
pub mod config;
pub mod engine;
pub mod fixup;
pub mod handles;
pub mod search;
pub mod text;

verus! {

/// The name under which the extension shows itself to the host.
pub const PLUGIN_NAME: &'static str = "IbEverythingExt";

} // verus!
