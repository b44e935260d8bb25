//! Code generator from a small C-like language to script text, with a lexer
//! for the source language.
pub mod ast;
pub mod text;
pub mod compiler;
pub mod laws;
pub mod token;
pub mod lexer;
