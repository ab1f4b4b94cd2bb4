//! The Mojo backend of a binding generator: it lowers the description of
//! an API to names and signatures on a C ABI, and puts together, for each
//! definition, a file with its declaration and a file with its methods.
//!
//! - `hir`: the type universe that is read, as plain data.
//! - `formatter`: the spelling of identifiers and scalars.
//! - `header`: one file while it is put together.
//! - `errors`: hard failures, and the collector of soft diagnostics.
//! - `lowering`: what lowering a type, a method or a definition means.
//! - `ty`: the engine that does it.
//! - `templates`: the parts that the files are then written from.
//! - `effects`: what a lowering step does to a file and to the collector.
//! - `text`: string building blocks.
pub mod effects;
pub mod errors;
pub mod formatter;
pub mod header;
pub mod hir;
pub mod lowering;
pub mod templates;
pub mod text;
pub mod ty;
