//! The decision logic of a desktop TIDAL player: what is played and from where, who is
//! signed in and what is kept of it, which plays are reported, which services and
//! speakers are used.

pub mod clock;
pub mod commands;
pub mod defaults;
pub mod encoding;
pub mod error;
pub mod json;
pub mod lists;
pub mod random;
pub mod settings;
pub mod sonos;
pub mod state;
pub mod text;
pub mod tidal_report;

pub use clock::now_secs;
pub use error::SoneError;
pub use settings::{
    AuthMethod, LastfmCredentials, ListenBrainzCredentials, ProxySettings, ProxyType,
    ScrobbleSettings, Settings,
};
pub use state::AppState;
