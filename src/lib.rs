//! Verified decision logic for a webcam display that keeps an audio
//! loopback alive while the webcam's microphone is present.
//!
//! The native audio server, the GUI and the USB camera live outside this
//! crate; what they report is handed to the state machines here, which say
//! what to do next.

pub mod operation;
pub mod orchestrator;
pub mod runtime;
pub mod settings;
pub mod slot;
pub mod text;
pub mod video;
