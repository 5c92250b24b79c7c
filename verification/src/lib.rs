//! A small expression language: scanner, precedence-climbing parser,
//! type checker and tree-walking interpreter.
pub mod text;
pub mod error;
pub mod scope;
pub mod front;
pub mod middle;
pub mod backend;
