//! A small terminal text editor core: document buffer, cursor and viewport
//! model, frame rendering and key decoding, with machine-checked contracts.

pub mod command;
pub mod editor;
pub mod keys;
pub mod row;
pub mod screen;
pub mod session;
pub mod state;
pub mod text;
