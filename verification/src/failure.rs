//! What can go wrong with a single add-on.

use vstd::prelude::*;

verus! {

/// Why an add-on drops out of a batch.
#[derive(Clone, Copy, Debug, PartialEq, Eq, Structural)]
pub enum Failure {
    /// A source gave no answer, or one that is no JSON.
    UnreachableOrMalformedResponse,
    /// A metadata document lacks what its source is bound to give.
    UnexpectedMetadataShape,
    /// An unpacked archive holds no manifest where one is looked for.
    NoManifestFound,
    /// The document of the registry is not a list of add-ons.
    MalformedRegistry,
}

} // verus!
