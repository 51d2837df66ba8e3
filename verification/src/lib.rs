//! Front end of a small imperative language: a character-level scanner
//! (`cursor`), a classifying tokenizer (`lexer`), and a recursive-descent
//! parser (`parser`).  Source text goes in; a classified token stream and an
//! abstract syntax tree come out, each with an ordered list of recoverable
//! diagnostics.

mod chars;
pub mod cursor;
pub mod lexer;
pub mod parser;

pub use chars::{char_utf8_bytes, seq_utf8_bytes, byte_at};
