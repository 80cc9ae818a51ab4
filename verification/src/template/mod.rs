//! A plain description of exported Rust items and its translation into the
//! data that a Python binding template is rendered from.
pub mod derived_input;
pub mod error;
pub mod laws;
pub mod py_gen;
pub mod py_types;
pub mod rust_types;
