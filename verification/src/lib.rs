//! The front end of a Lox interpreter: a scanner from source text to tokens and
//! a recursive-descent parser from tokens to expression trees, both verified
//! against mathematical descriptions of what they produce.

pub mod ast;
pub mod chars;
pub mod grammar;
pub mod interpreter;
pub mod lexer;
pub mod parser;
pub mod scan;
pub mod token;
pub mod unparse;
