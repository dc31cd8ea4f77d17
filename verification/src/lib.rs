//! A small SQL front end: a lexer that turns a statement into tokens, a
//! recursive-descent parser that builds a syntax tree, and a code generator
//! that emits a compact length-prefixed bytecode for a virtual machine.

pub mod ast;
pub mod chars;
pub mod codegen;
pub mod ddl;
pub mod lexer;
pub mod parser;
pub mod sql;
pub mod token;
