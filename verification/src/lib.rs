//! KeySlop: the verified core of a keyboard soundboard.
//!
//! Every key press anywhere on the system can play a sound: a per-key sound
//! where one is assigned, otherwise a global sound. This crate holds the
//! logic of the application; the window, the audio output, the keyboard hook
//! and the file system stay outside it.

pub mod keys;
pub mod text;
pub mod key_sounds;
pub mod config;
pub mod polyphony;
pub mod autostart;
pub mod tray;
pub mod session;
pub mod devices;
pub mod key_names;
