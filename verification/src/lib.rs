//! Static semantic analysis for a small single-inheritance object-oriented
//! language: inheritance-graph construction, attribute and dispatch layout,
//! and type checking; with the lexer, the tables of the parser and the
//! instruction texts of the code generator around it.

pub mod ast;
pub mod builtins;
pub mod cgen;
pub mod error;
pub mod lexer;
pub mod name_table;
pub mod parser;
pub mod scoped_collections;
pub mod semant;
pub mod text;
pub mod token;
