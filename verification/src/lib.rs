//! Cross-thread task-scheduling and event-notification core for a host
//! application with a main/UI thread and a real-time audio thread.

pub mod audio_hook;
pub mod automation_mode;
pub mod channel;
pub mod control_surface;
pub mod errors;
pub mod events;
pub mod flags;
pub mod fx;
pub mod midi;
pub mod midi_output_device;
pub mod misc_newtypes;
pub mod session;
