pub mod ast;
pub mod text;
pub mod color;
pub mod error;
pub mod lexer;
pub mod cursor;
pub mod grammar;
pub mod parser;
pub mod typing;
pub mod checker;
pub mod emit;
pub mod codegen;
pub mod report;
pub mod import;
