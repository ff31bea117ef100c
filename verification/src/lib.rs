//! A verified core for `rcat`, a line-oriented file display tool.
//!
//! The library holds the logic of the tool: resolving a syntax grammar from a
//! file name, resolving a colour theme from a requested name, rendering lines
//! as terminal escape sequences with optional line numbers, and deciding the
//! outcome of a whole run.  The syntax catalogues, theme catalogues and the
//! per-line tokenizer come from the `syntect` crate behind a small set of
//! trusted declarations; everything around those calls is verified.

pub mod catalog;
pub mod numfmt;
pub mod render;
pub mod resolve;
pub mod session;
pub mod segment;
