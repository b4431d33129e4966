//! Core of a clipboard-capture utility: it resolves where a capture should be
//! saved from layered optional overrides, validates the clipboard's raw pixel
//! buffer into a rectangular RGBA image, computes a timestamped filename, and
//! encodes the image as PNG bytes ready to be written to disk.

pub mod capture;
pub mod clipboard;
pub mod errors;
pub mod filename;
pub mod paths;
pub mod pixels;
pub mod resolve;
