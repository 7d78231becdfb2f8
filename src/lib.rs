//! Runtime coordination for an RGB lighting control surface: profile cycling,
//! the custom-effect lifecycle, global hotkey chord detection and the
//! per-frame coordinator that decides what reaches the effect backend.
pub mod effect_state;
pub mod profile;
pub mod message;
pub mod hotkey;
pub mod settings;
pub mod coordinator;
