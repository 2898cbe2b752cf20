//! A compiler for a small source language: source text is lexed into lines of
//! tokens, a lookback automaton turns each line into instructions, and a
//! backend renders them as x86-64 assembly text, one text section and one data
//! section per source file.

pub mod assembly;
pub mod base;
pub mod caller;
pub mod checking;
pub mod data;
pub mod effects;
pub mod frame;
pub mod linux;
pub mod logger;
pub mod objects;
pub mod parser;
pub mod platform;
pub mod text;
pub mod tokens;
