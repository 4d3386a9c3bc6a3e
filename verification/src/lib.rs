//! Checks whether a datapack directory tree follows a set of structural
//! conventions expressed as JSON documents, and reports violations as
//! renderer-agnostic diagnostics that point at the exact span of the
//! offending token in the original source text.

pub mod conventions;
pub mod datapack_advancement;
pub mod diagnostic;
pub mod global_root;
pub mod span;
pub mod verify_convention;
pub mod watch;
