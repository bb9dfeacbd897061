//! Smoke: a small tape language with ten one-character instructions.
//!
//! [`tokenizer::tokenizer`] turns text into tokens, a [`chunk::Chunk`] runs
//! them one transition at a time on a tape of 32-bit cells, and a
//! [`session::Session`] keeps the tape from one line of a prompt to the
//! next. What a run does is laid down in [`machine`], as a model that the
//! engine is proved against; [`text`] reads the lines that a run asks for.

pub mod chunk;
pub mod machine;
pub mod session;
pub mod text;
pub mod token;
pub mod tokenizer;
