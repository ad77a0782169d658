//! Fatal errors of the generation pass.

use vstd::prelude::*;

verus! {

/// A fatal error: the whole run is aborted, no partial output is kept.
#[derive(Clone, Copy, PartialEq, Eq, Structural, Debug)]
pub enum Error {
    /// The input cannot be parsed as a type-declaration file.
    UnparsableSource,
    /// No recognized annotation combination matched a field.
    UnknownFieldKind,
}

} // verus!
