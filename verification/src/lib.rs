//! A soundboard core: clip bookkeeping, the playback engine's voice set,
//! hotkey parsing and the controller that builds a virtual microphone out of
//! audio-server modules.
//!
//! Nothing in this crate touches a device, a file or a process. The host
//! program performs those effects and hands plain values in and out.
pub mod audio;
pub mod gain;
pub mod graph;
pub mod hotkeys;
pub mod paths;
pub mod pipewire;
pub mod sound_manager;
pub mod text;
