//! A small ahead-of-time compiler for a restricted C-like language: one
//! function whose body is a `return` statement over integer constants and
//! prefix unary operators, translated down to x86-64 assembly text.
//!
//! The pipeline runs strictly forward: source text -> tokens -> AST ->
//! three-address IR -> unallocated assembly -> legalized assembly -> text.
//! Each stage either produces a complete output or fails fast with the
//! stage's own error.

pub mod ast;
pub mod assembler;
pub mod assembly;
pub mod at;
pub mod cli;
pub mod errors;
pub mod identifier;
pub mod lexer;
pub mod parser;
pub mod preprocessor;
pub mod stack_allocator;
pub mod tacky;
pub mod tacky_ast;
pub mod text;
pub mod token;
