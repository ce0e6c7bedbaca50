//! Static types for a language with structural typing: a type algebra with
//! structural equality, narrowing, structural assignability, signature
//! resolution for calls and constructions, and the inference of expression
//! types in a lexical scope. Every function states its result over the
//! mathematical models of the types, and the laws of assignability are
//! proved in `laws`.
pub mod ty;
pub mod eq;
pub mod copy;
pub mod render;
pub mod error;
pub mod algebra;
pub mod narrow;
pub mod assign;
pub mod laws;
pub mod ast;
pub mod scope;
pub mod resolve;
pub mod infer;
