//! A looping sound handle, kept apart from the audio device.
//!
//! The handle remembers which file plays, at which volume, and whether it is
//! loaded and playing. Every operation returns the commands that the playback
//! sink has to carry out, in order; the caller owns the sink, performs them,
//! and reports the sink's queue length back through `Sound::update`.

pub mod command;
pub mod model;
pub mod queue;
pub mod sound;

pub use command::SinkCommand;
pub use sound::{requeue_due, Sound};
