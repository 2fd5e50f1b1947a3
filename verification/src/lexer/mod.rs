pub mod kw;
