//! The tables that drive the parser.

pub mod parse_table;
