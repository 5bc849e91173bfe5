//! Capture-proof overlay windows and synthetic input, as verified decisions.
//!
//! The library decides what native events an input request becomes (the key
//! table, the modifier ordering, button names, absolute-coordinate rescaling),
//! keeps the registry of live overlay windows, and drives the overlay's redraw
//! loop. Submitting events and creating windows is left to the caller.
pub mod error;
pub mod keymap;
pub mod keyboard;
pub mod mouse;
pub mod overlay;
pub mod redraw;
