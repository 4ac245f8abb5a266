//! Typed client interfaces from the signatures of route handlers.
//!
//! A route handler is a function with a `get` or a `post` attribute. The
//! `parser` finds the handlers among the function items of a syntax tree
//! and resolves their parameters and return types to the names that a
//! client sees; `interface` writes the handlers down as the members of one
//! interface block.
//!
//! The library reads no source text. Its `syntax` types hold what it needs
//! to know of a syntax tree, and whoever parses the source fills them in.

pub mod interface;
pub mod parser;
pub mod seqs;
pub mod syntax;
pub mod text;
