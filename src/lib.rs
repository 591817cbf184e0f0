//! Platform resolution for linking against the FMOD SDK: target triples are
//! parsed into a closed set of supported targets, and each target, together with
//! a build configuration, yields the exact link directives and compiler flags
//! that a build script hands to cargo and to the binding generator.
pub mod directive;
pub mod error;
pub mod flags;
pub mod link;
pub mod target;
pub mod text;
