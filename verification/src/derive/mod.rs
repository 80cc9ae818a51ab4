//! The code-generation logic behind the attribute and derive macros: how
//! signatures are rewritten into C-callable wrappers and what is recorded
//! about each exported item.
pub mod error;
pub mod func;
pub mod generate;
pub mod generics;
pub mod items;
pub mod laws;
pub mod parse;
pub mod reader;
pub mod syn_model;
pub mod template;
