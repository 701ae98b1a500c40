//! Binding layer for a native text-tokenization engine.
//!
//! The engine is an opaque native component reached over a foreign-function
//! boundary by an unverified runtime shim. This crate holds everything on the
//! caller's side of that boundary that can be wrong in a dangerous way: the
//! handle lifecycle (create once, release once, reject use after release),
//! the marshaling of text and token sequences into and out of the engine's
//! buffer forms, the lowering of optional arguments (absent is not empty),
//! the translation of engine outcomes into the binding's error taxonomy, and
//! the accounting that pairs every engine-allocated buffer with exactly one
//! matching free.

pub mod engine;
pub mod error;
pub mod handle;
pub mod ops;
pub mod text;
pub mod tokens;
pub mod utf8;
