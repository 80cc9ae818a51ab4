//! An interface with boxed, JSON and unknown structures and nested results,
//! from which a Python binding is generated.
pub mod api;
pub mod lib_items;
