//! Rewrites HTML-style reference links in documentation comments into
//! path-style intra-documentation links.
//!
//! A file is scanned once, line by line. Every line gets one [`Action`]: it
//! stays as it is, it is deleted, or it is replaced by a new text. The scan
//! is [`search_links`]; it takes the compiled line patterns from a
//! [`PatternRegistry`] that the caller builds once. [`render`] turns the
//! decisions into the text of the rewritten file.
//!
//! Which lines a pattern matches is decided by the `regex` crate and taken on
//! trust (see [`matcher`]). Everything that is done with a match is verified:
//! the rewrite rules ([`rewrite`]), the tracking of implementation blocks
//! ([`context`]), the pass over the file ([`scan`]) and the laws that every
//! scan obeys ([`laws`]).

pub mod action;
pub mod capture;
pub mod context;
pub mod laws;
pub mod matcher;
pub mod patterns;
pub mod rewrite;
pub mod scan;
pub mod text;

pub use action::{render, rewritten_lines, Action, Reason};
pub use context::ImplContext;
pub use patterns::{PatternError, PatternKind, PatternRegistry};
pub use scan::search_links;
