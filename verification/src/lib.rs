//! A small animated pet for a terminal's plugin dock: its state machine, its
//! moods, the frame signature that decides when a redraw is due, and the two
//! widget renderings (a text card for older hosts, a drawn canvas for newer
//! ones), together with the few text routines the plugin protocol needs.

pub mod mood;
pub mod pet;
pub mod text;
pub mod handshake;
pub mod scene;
pub mod widget;
pub mod laws;
pub mod events;
