//! How values cross the C boundary: each Rust value has a C-side form, and
//! the conversions between the two either succeed or report why not.
pub mod error;
pub mod ffi_util;
pub mod laws;
