//! A small compiler from a minimal expression-oriented language to native
//! object code.
//!
//! The library covers the path from a tagged parse tree (supplied by an
//! external grammar-driven parser) to relocatable object bytes: building a
//! typed abstract syntax tree, resolving the designated entry function,
//! lowering its body to a flat single-block intermediate representation,
//! and handing that to an external code-generation backend for
//! serialization. Every step up to the backend boundary carries a proved
//! contract over a mathematical model of its data.

pub mod ast;
pub mod backend;
pub mod compile;
pub mod error;
pub mod laws;
pub mod lower;
pub mod numeral;
pub mod parse_tree;
pub mod resolve;
pub mod semantics;
