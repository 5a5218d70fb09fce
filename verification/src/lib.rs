//! Extraction of struct declarations from Rust source into a canonical,
//! language-agnostic model, and regeneration of declaration source from
//! that model.

pub mod extractor;
pub mod laws;
pub mod model;
pub mod structmap;
pub mod syntax;
pub mod util;
pub mod visitors;
pub mod writers;
