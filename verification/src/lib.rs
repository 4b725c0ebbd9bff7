//! Build-time helper that prepares prebuilt SDL2 development libraries for
//! Windows targets: it decides which files inside a downloaded archive are
//! wanted binary artifacts, where each one must be placed, which archives a
//! build needs, and which toolchain/bit-width subtree the final dynamic
//! libraries are copied from.

pub mod archive;
pub mod classify;
pub mod errors;
pub mod fetch;
pub mod orchestrate;
pub mod text;
