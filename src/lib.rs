//! Core of a terminal text editor: raw-mode session bookkeeping, window
//! geometry, a screen renderer that builds ANSI output, and a decoder that
//! turns raw input bytes into key events.

pub mod decode;
pub mod error;
pub mod event;
pub mod geometry;
pub mod render;
pub mod session;
