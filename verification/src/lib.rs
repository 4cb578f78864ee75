//! RDF terms (IRIs, blank nodes, literals, variables) over interchangeable
//! string-ownership strategies, with namespaces for building IRIs.

pub mod bnode_id;
pub mod compare;
pub mod error;
pub mod hashing;
pub mod iri_term;
pub mod laws;
pub mod literal_kind;
pub mod ns;
pub mod syntax;
pub mod term;
pub mod text;
