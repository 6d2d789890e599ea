//! Core of the Eon language: static analysis, bytecode translation, and a
//! stack-based virtual machine with a mark-and-sweep heap.
//!
//! The surface parser, the file provider, dynamic library loading and the
//! host I/O functions are external collaborators; this crate works on plain
//! values (ASTs, instruction streams, VM states) that they hand in.

pub mod assembly;
pub mod builtin;
pub mod constants;
pub mod patterns;
pub mod statics;
pub mod text;
pub mod typecheck;
pub mod vm;
