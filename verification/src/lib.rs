//! Ahead-of-time native artifacts for a WebAssembly runtime.
//!
//! Compiled function bodies, trampolines and custom sections are laid out in a
//! relocatable object for the target, next to a length-prefixed metadata blob
//! stored under a fixed symbol. The object is linked into a shared library,
//! and the shared library is loaded back to recover the function pointers.
//!
//! This crate holds the rules of that process: which bytes are recognised,
//! how symbols are named, what goes into the object and in which order, how
//! the linker is invoked, and how the pointer tables of an artifact are filled
//! from what the dynamic loader resolved.

pub mod artifact;
pub mod compilation;
pub mod emit;
pub mod error;
pub mod laws;
pub mod linker;
pub mod metadata;
pub mod names;
pub mod object_file;
pub mod tables;
pub mod target;
pub mod varint;
