//! The older generator of C-callable wrappers: it records each exported
//! function as a `Function` of `Arg`s while rewriting its signature, and can
//! carry chosen types across the boundary as JSON text.
pub mod generate;
pub mod laws;
