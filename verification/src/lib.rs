//! Inline error-variant transformer.
//!
//! The library rewrites the body of a function in which `err!(...)` marker
//! occurrences describe the variants of an error enum inline.  Each marker is
//! parsed into a variant definition ([`data::VariantWithValue`]), projected
//! into a type-level declaration fragment and a value-level construction
//! expression ([`data`]), and replaced in place by a tree walk over the body
//! ([`walker`]).  The name of the synthesized enum is resolved from the
//! function's declared result type ([`resolve`]), pass-through options come
//! from a small configuration grammar ([`config`]), and [`transform::errgo`]
//! ties the passes together.
//!
//! All of it works on a flat stream of plain tokens ([`token::Tok`]), so that
//! every pass is an ordinary function from values to values with a proved
//! contract.

pub mod config;
pub mod data;
pub mod expanded;
pub mod parse;
pub mod resolve;
pub mod token;
pub mod transform;
pub mod walker;

pub use token::Delim;
pub use token::Tok;
pub use token::TokView;
