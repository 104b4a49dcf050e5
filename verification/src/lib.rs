//! Build-time derivation of companion declarations and SQL statement text.
//!
//! Two engines share this crate. The schema transformer reads an annotated
//! type declaration into a model ([`model`], [`directive`]) and derives
//! companion declarations from it ([`transform`]) or a classifier of its
//! variants ([`kind`]); [`render`] writes either as source text. The
//! statement synthesizer reads a macro's argument list and renders one of
//! four SQL statements ([`statement`]). What holds of every result is stated
//! and proved in [`laws`].

pub mod directive;
pub mod error;
pub mod kind;
pub mod laws;
pub mod literal;
pub mod model;
pub mod render;
pub mod statement;
pub mod text;
pub mod transform;
