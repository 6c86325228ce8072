//! A verified command-pipeline engine for a line-oriented shell.
//!
//! The crate covers the algorithmic core of the interpreter: a quoting-aware
//! tokenizer, a pipeline parser with redirection grammar, search-path
//! executable resolution, the in-process builtins, and the wiring plan that
//! connects pipeline stages through pipes and redirections.  Everything that
//! touches the operating system (files, processes, the terminal) lives
//! outside this crate and exchanges plain values with it.

pub mod builtins;
pub mod errors;
pub mod exec;
pub mod history;
pub mod lexer;
pub mod parser;
pub mod resolve;
pub mod text;
