//! The logic of a teleprompter: its scrolling state machine, the key
//! bindings and window reactions of its event loop, and the arithmetic of
//! its renderer (surface sizes and text placement), kept apart from the
//! windowing, GPU and GUI crates that drive it.
//!
//! Quantities that a display shows as fractions are held as integers:
//! speeds in milli-pixels per second, opacities in thousandths, and
//! positions in nanopixels.

pub mod font;

pub mod teleprompter;
pub mod session;
pub mod render;
pub mod laws;
