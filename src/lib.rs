//! A static type checker for a small expression language: literals, variables,
//! binary operations, conditionals, one-argument functions and calls.

pub mod types;
pub mod env;
pub mod check;
pub mod laws;

pub use check::type_check;
