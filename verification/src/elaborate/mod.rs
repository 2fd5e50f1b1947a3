pub mod expr;
pub mod hier;
pub mod reconstruct;
pub mod ty;
