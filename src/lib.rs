//! A differential stress-testing engine: a generator produces inputs, a
//! solution and an optional reference run on each, and their outputs are
//! compared after trailing white space is removed.
//!
//! - `text`: lenient decoding and normalization of captured output.
//! - `exec`: the classification of one command run and its error text.
//! - `trial`: the trial loop as a state machine that the caller drives.
pub mod exec;
pub mod text;
pub mod trial;
