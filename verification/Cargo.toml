[package]
name = "rdf_term"
version = "0.1.0"
edition = "2021"
publish = false

[dependencies]
language-tag = "0.9"
mownstr = "0.1"
sophia_iri = "0.7"

[dev-dependencies]
regex = "1"
