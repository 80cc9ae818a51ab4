//! Marshalling rules and code-generation logic for exposing Rust functions
//! through a C ABI and describing them to a Python front end.
pub mod base;
pub mod derive;
pub mod ffi;
pub mod generator;
pub mod suite;
pub mod template;
pub mod text;
pub mod util;
