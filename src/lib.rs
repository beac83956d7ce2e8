//! The verified core of a triangle-mesh renderer: growable device buffers,
//! the per-frame plan of the triangle pipeline, and the multisample resolver's
//! target cache.
//!
//! The device itself stays outside: allocation and recording are handed in as
//! closures, and the library decides when they are called and with what.
pub mod buffer;
pub mod msaa;
pub mod triangle;
