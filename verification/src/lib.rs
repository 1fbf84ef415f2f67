//! Static-analysis core for enforcing package ("pack") boundaries.
//!
//! Source files are turned into structured fact records by a cached,
//! pluggable processing pipeline, and rule checkers evaluate resolved
//! references against per-pack policy.  The folder-visibility rule is the
//! exemplar checker: a pack's internals are visible only to itself, its
//! filesystem siblings, its descendants, or to everyone when the rule is
//! disabled for the defining pack.

pub mod caching;
pub mod checker;
pub mod decimal;
pub mod file_utils;
pub mod folder_visibility;
pub mod pack;
pub mod parsing;
pub mod paths;
