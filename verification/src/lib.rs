//! Generates React/TypeScript editor components and AST classes from an
//! EBNF grammar.
pub mod describe;
pub mod generate;
pub mod ids;
pub mod jsx;
pub mod laws;
pub mod parse;
pub mod render;
pub mod rendered;
pub mod templates;
pub mod text;
pub mod tree;
