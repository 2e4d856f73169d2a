//! The verified core of a bridge between a pull-model audio output device and
//! a sound engine that renders interleaved stereo frames on demand.
//!
//! Two things are decided here, and both are proved:
//!
//! * [`format`]: which device configuration the engine needs, whether it can
//!   be asked of the audio subsystem at all, and whether the configuration
//!   that the subsystem negotiated is the one that was asked for.
//! * [`frames`]: how a flat buffer of samples and a buffer of stereo frames
//!   correspond, in both directions.
//!
//! Opening the device, locking the engine and rendering are the caller's
//! business: this crate takes and returns plain values only.

pub mod format;
pub mod frames;
