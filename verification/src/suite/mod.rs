//! Example interfaces exported through the macros, as the macros expand them:
//! the functions and types themselves and their C-callable wrappers.
pub mod derive_lib;
pub mod template_lib;
pub mod template_test;
pub mod test_lib;
