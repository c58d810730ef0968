//! Protein-annotation retrieval library.
//!
//! The library reads the JSON payload served by a feature-annotation web
//! service, checks it against the expected envelope schema, and projects
//! each result item into a flattened annotation view of its accession
//! identifiers, gene names and keywords.  Network access, command-line
//! handling and printing are left to the surrounding application.

pub mod driver;
pub mod json;
pub mod parse;
pub mod project;
pub mod schema;
pub mod ser;
