//! The song catalog, playback state and rename staging of a small audio player.
//!
//! Everything here works on plain values. Listing a folder, reading and writing
//! tags, decoding audio and driving the output device are done by the caller,
//! who hands in what was found and carries out the commands that come back.

pub mod app;
pub mod audio;
pub mod catalog;
pub mod error;
pub mod extension;
pub mod song;
pub mod text;
