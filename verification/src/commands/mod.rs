//! The commands of the player, up to the calls that leave the process.

pub mod auth;
pub mod desktop;
pub mod playback;
pub mod scrobble;
pub mod sonos;
pub mod token_data;
