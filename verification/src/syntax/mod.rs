pub mod ast;
pub mod tokens;
