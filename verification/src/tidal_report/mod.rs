//! Reports completed plays to TIDAL's Event Producer, so that they appear in the
//! user's TIDAL Recently Played. One `playback_session` event goes out per play
//! that meets the listen threshold.

pub mod event;
pub mod queue;
pub mod reporter;
pub mod session;

pub use reporter::TidalReporter;
pub use session::StreamMeta;
