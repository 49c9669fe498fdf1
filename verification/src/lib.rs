//! Core logic of a minimal terminal markdown viewer.
//!
//! The library resolves launch arguments into a validated configuration,
//! chooses the effective rendering width, renders a document once through
//! the terminal markdown renderer, and decides what each pressed key does
//! in the scrollable view.  Everything that touches the process environment,
//! the filesystem or the terminal itself lives outside the library and hands
//! plain values in.

pub mod cli;
pub mod errors;
pub mod viewer;
