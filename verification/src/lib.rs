//! A launcher extension that offers to copy the zero-width-space character
//! (U+200B) to the clipboard.
//!
//! The host application drives the extension through two entry points: a
//! one-time init transition that stores a configuration value, and a
//! per-keystroke input transition that fuzzy-matches the query against the
//! fixed phrase "Zero Width Space" and, on a match, yields one selectable
//! result entry whose deferred action carries the character to copy.
//!
//! The host-facing plumbing (the matcher primitive, the clipboard, the UI)
//! lives outside this crate; here stand the decisions: what to store, when to
//! consult the matcher, and exactly what entry to build for each outcome.

pub mod config;
pub mod lifecycle;
pub mod matcher;
pub mod response;
