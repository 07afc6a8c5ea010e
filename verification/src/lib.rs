//! Constraint-generation backend for a small circuit language.
//!
//! The library walks a resolved program tree (structs, functions and
//! top-level statements over booleans and fixed-width integers) and emits
//! an arithmetic/boolean circuit: a sequence of gates in a constraint
//! system, together with a typed runtime value for every named entity.

pub mod api;
pub mod ast;
pub mod constraints;
pub mod errors;
pub mod laws;
pub mod render;
pub mod semantics;
pub mod sink;
pub mod text;
pub mod values;
