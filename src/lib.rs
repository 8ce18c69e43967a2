//! Gesture-triggered translation: a detector for a double press of caps lock
//! while control is held, request encoders and reply readers for a keyed relay
//! and for a keyless vendor endpoint, the settings and their tray commands, and
//! the decisions taken when the gesture fires.

pub mod client;
pub mod config;
pub mod encode;
pub mod orchestrator;
pub mod shortcut;
pub mod translate;
pub mod translate_with_api_key;
