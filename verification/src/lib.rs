//! A small scoped-resource demonstration library.
//!
//! The library models a program that parses one boolean flag, branches on it,
//! and emits a fixed sequence of diagnostic lines: branch markers, an
//! end-of-body marker, and one teardown marker per constructed resource, in
//! reverse order of construction. Every line of output is pinned down exactly
//! by the contracts in [`program`], over the specification-level line texts in
//! [`output`].

pub mod output;
pub mod program;
pub mod resource;
