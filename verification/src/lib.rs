//! Codec for the KRDS format: the structured layout a Kindle e-reader
//! uses to persist reader-state files (font preferences and document
//! annotations, `.yjr`/`.azw3r`) and timer-state files (reading-speed
//! statistics and page history, `.yjf`/`.azw3f`).
//!
//! The transport layer that turns raw bytes into nested named/positional
//! value trees is out of scope; this crate maps between such a tree
//! ([`value::Value`]) and the typed in-memory model ([`model`]).

pub mod value;

pub mod model;

pub mod encode;

pub mod decode;

pub mod laws;
