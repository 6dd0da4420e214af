//! Audio capture and playback control: format negotiation, the realtime
//! buffers handed to audio callbacks, and the recorder/player state machine.

pub mod error;
pub mod format;
pub mod negotiate;
pub mod session;
pub mod names;
pub mod status;
pub mod recorder;
