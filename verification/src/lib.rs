//! Decision logic of a desktop dictation helper's output stage: putting text
//! on the clipboard, pasting it into the window that had focus, and the
//! language menu of the tray icon.
//!
//! Everything that touches the desktop (spawning helper programs, sleeping,
//! the clipboard itself, the tray) is performed by the caller; this crate
//! decides what to run, in which order, and what the result is.

pub mod text;
pub mod clipboard;
pub mod paste;
pub mod tray;
pub mod win32;

pub use text::{is_ascii_digits, trim_whitespace};
