//! Bridges a chat channel of a conferencing server to a virtual gamepad:
//! chat tokens become timed button presses and stick deflections.

pub mod text;
pub mod controller;
pub mod protocol;
pub mod session;
