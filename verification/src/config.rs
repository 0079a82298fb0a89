//! Where the add-ons and their registry live.

use vstd::prelude::*;

verus! {

/// The two paths that an installation works with.
#[derive(Debug, PartialEq, Eq)]
pub struct Config {
    /// The directory that add-ons are installed into.
    pub addon_dir: String,
    /// The file that holds the registry of installed add-ons.
    pub addon_json: String,
}

} // verus!
