//! Contextual script shaping for a right-to-left cursive script.
//!
//! The crate classifies each letter of the target cursive block by its
//! joining context (isolated, initial, medial or final), maps it through a
//! form-selection table, and reverses the whole string for visual
//! presentation when any right-to-left character is present.  A small
//! resolution lookup and a frame-accumulating video configuration type
//! share the same pure, total style.

use vstd::prelude::*;

pub mod classify;
pub mod resolution;
pub mod shape;
pub mod video;

verus! {

/// A readiness banner for a caller to display.
pub fn greet() -> (r: String)
    ensures
        r@ == "🎬 Video Generator WASM Ready!"@,
{
    String::from_str("🎬 Video Generator WASM Ready!")
}

/// The library's version string.
pub fn version() -> (r: String)
    ensures
        r@ == "1.0.0"@,
{
    String::from_str("1.0.0")
}

} // verus!
