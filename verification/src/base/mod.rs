//! Generic descriptions of arguments and functions, and a Rust type
//! vocabulary that spells out integer widths, vectors and objects.
pub mod output_file;
pub mod rust_types;
pub mod templ_base;
