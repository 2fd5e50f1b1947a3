//! Writing elaborated SystemVerilog designs back as syntax trees.

pub mod elaborate;
pub mod lexer;
pub mod number;
pub mod source;
pub mod syntax;
pub mod text;
