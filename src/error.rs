//! Errors of platform resolution.
use vstd::prelude::*;

use crate::target::{Module, Target};

verus! {

/// Why a link plan or a set of compiler flags could not be produced.
#[derive(Clone, Copy, Debug, PartialEq, Eq, Structural)]
pub enum ResolveError {
    /// The target triple is none of the supported ones.
    UnrecognizedTriple,
    /// The module was requested on a target for which the SDK does not ship it.
    UnsupportedConfiguration { target: Target, module: Module },
    /// A required input, such as the SDK root, was not supplied.
    MissingEnvironment,
    /// A path could not be represented as UTF-8 text.
    PathEncodingError,
}

} // verus!
