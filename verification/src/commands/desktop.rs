//! What the desktop's media controls (MPRIS) and Discord are told.

use crate::text;
use vstd::prelude::*;

verus! {

/// What plays, as the frontend knows it. Numbers with a fraction are the bits of
/// 64-bit numbers.
#[derive(Debug)]
pub struct MprisMetadata {
    pub track_id: u64,
    pub title: String,
    pub artist: String,
    pub album: String,
    pub art_url: String,
    pub duration_secs: u64,
    pub url: String,
    pub quality_text: String,
    pub album_artist: Option<String>,
    pub track_number: Option<u32>,
    pub disc_number: Option<u32>,
    pub content_created: Option<String>,
    pub user_rating: Option<u64>,
}

/// A message to the media controls.
#[derive(Debug)]
pub enum MprisCommand {
    SetMetadata {
        track_id: u64,
        title: String,
        artist: String,
        album: String,
        art_url: String,
        duration_secs: u64,
        url: Option<String>,
        album_artist: Option<String>,
        track_number: Option<u32>,
        disc_number: Option<u32>,
        content_created: Option<String>,
        user_rating: Option<u64>,
    },
    SetPlaybackStatus { is_playing: bool },
    SetShuffle { enabled: bool },
    SetFullscreen { fullscreen: bool },
    SetLoopStatus { mode: u8 },
    SetVolume { volume: u64 },
    Seeked { position_secs: u64 },
    Stop,
}

/// A message to Discord.
#[derive(Debug)]
pub enum DiscordCommand {
    Connect,
    Disconnect,
    SetStatusText { text: String },
    SetMetadata {
        title: String,
        artist: String,
        album: String,
        art_url: String,
        duration_secs: u64,
        url: String,
        quality_text: String,
    },
    SetPlaying { is_playing: bool, position_secs: u64 },
    Seeked { position_secs: u64 },
    Stop,
}

/// The bits of the 64-bit number 0.0: the start of a track.
pub const START: u64 = 0;

/// What the media controls are told of new metadata: all of it but the quality, and the URL
/// only where there is one.
pub open spec fn mpris_metadata(command: MprisCommand, metadata: MprisMetadata) -> bool {
    command matches MprisCommand::SetMetadata {
        track_id,
        title,
        artist,
        album,
        art_url,
        duration_secs,
        url,
        album_artist,
        track_number,
        disc_number,
        content_created,
        user_rating,
    } && {
        &&& track_id == metadata.track_id
        &&& title == metadata.title
        &&& artist == metadata.artist
        &&& album == metadata.album
        &&& art_url == metadata.art_url
        &&& duration_secs == metadata.duration_secs
        &&& album_artist == metadata.album_artist
        &&& track_number == metadata.track_number
        &&& disc_number == metadata.disc_number
        &&& content_created == metadata.content_created
        &&& user_rating == metadata.user_rating
        &&& url == if metadata.url@.len() == 0 {
            None
        } else {
            Some(metadata.url)
        }
    }
}

/// What Discord is told of new metadata.
pub open spec fn discord_metadata(command: DiscordCommand, metadata: MprisMetadata) -> bool {
    command matches DiscordCommand::SetMetadata {
        title,
        artist,
        album,
        art_url,
        duration_secs,
        url,
        quality_text,
    } && {
        &&& title == metadata.title
        &&& artist == metadata.artist
        &&& album == metadata.album
        &&& art_url == metadata.art_url
        &&& duration_secs == metadata.duration_secs
        &&& url == metadata.url
        &&& quality_text == metadata.quality_text
    }
}

/// The messages for new metadata. An empty URL is none for the media controls.
pub fn update_mpris_metadata(metadata: MprisMetadata) -> (commands: (MprisCommand, DiscordCommand))
    ensures
        mpris_metadata(commands.0, metadata),
        discord_metadata(commands.1, metadata),
        commands.0 == (MprisCommand::SetMetadata {
            track_id: metadata.track_id,
            title: metadata.title,
            artist: metadata.artist,
            album: metadata.album,
            art_url: metadata.art_url,
            duration_secs: metadata.duration_secs,
            url: if metadata.url@.len() == 0 {
                None
            } else {
                Some(metadata.url)
            },
            album_artist: metadata.album_artist,
            track_number: metadata.track_number,
            disc_number: metadata.disc_number,
            content_created: metadata.content_created,
            user_rating: metadata.user_rating,
        }),
        commands.1 == (DiscordCommand::SetMetadata {
            title: metadata.title,
            artist: metadata.artist,
            album: metadata.album,
            art_url: metadata.art_url,
            duration_secs: metadata.duration_secs,
            url: metadata.url,
            quality_text: metadata.quality_text,
        }),
{
    let url = if text::is_empty(metadata.url.as_str()) {
        None
    } else {
        Some(metadata.url.clone())
    };
    let mpris = MprisCommand::SetMetadata {
        track_id: metadata.track_id,
        title: metadata.title.clone(),
        artist: metadata.artist.clone(),
        album: metadata.album.clone(),
        art_url: metadata.art_url.clone(),
        duration_secs: metadata.duration_secs,
        url,
        album_artist: metadata.album_artist,
        track_number: metadata.track_number,
        disc_number: metadata.disc_number,
        content_created: metadata.content_created,
        user_rating: metadata.user_rating,
    };
    let discord = DiscordCommand::SetMetadata {
        title: metadata.title,
        artist: metadata.artist,
        album: metadata.album,
        art_url: metadata.art_url,
        duration_secs: metadata.duration_secs,
        url: metadata.url,
        quality_text: metadata.quality_text,
    };
    (mpris, discord)
}

/// The messages for playback that goes on or pauses. Discord shows the start of the
/// track where no position is known.
pub fn update_mpris_playback_status(is_playing: bool, position_secs: Option<u64>) -> (commands: (
    MprisCommand,
    DiscordCommand,
))
    ensures
        commands.0 == (MprisCommand::SetPlaybackStatus { is_playing }),
        commands.1 == (DiscordCommand::SetPlaying {
            is_playing,
            position_secs: match position_secs {
                Some(bits) => bits,
                None => START,
            },
        }),
{
    let position: u64 = match position_secs {
        Some(bits) => bits,
        None => START,
    };
    (
        MprisCommand::SetPlaybackStatus { is_playing },
        DiscordCommand::SetPlaying { is_playing, position_secs: position },
    )
}

/// The message for shuffled playback.
pub fn update_mpris_shuffle(enabled: bool) -> (command: MprisCommand)
    ensures
        command == (MprisCommand::SetShuffle { enabled }),
{
    MprisCommand::SetShuffle { enabled }
}

/// The message for a full-screen window.
pub fn update_mpris_fullscreen(fullscreen: bool) -> (command: MprisCommand)
    ensures
        command == (MprisCommand::SetFullscreen { fullscreen }),
{
    MprisCommand::SetFullscreen { fullscreen }
}

/// The message for repeated playback.
pub fn update_mpris_loop_status(mode: u8) -> (command: MprisCommand)
    ensures
        command == (MprisCommand::SetLoopStatus { mode }),
{
    MprisCommand::SetLoopStatus { mode }
}

// ---------------------------------------------------------------------------
// Windows and keys
// ---------------------------------------------------------------------------

/// What happened to a window.
#[derive(Clone, Copy, Debug, PartialEq, Eq, Structural)]
pub enum WindowEvent {
    CloseRequested,
    Destroyed,
    Focused,
    Other,
}

/// What a window's event calls for.
#[derive(Clone, Copy, Debug, PartialEq, Eq, Structural)]
pub enum WindowAction {
    Nothing,
    /// Keep the window and hide it.
    HideInTray,
    /// Tell the main window that the mini player is gone.
    MiniplayerClosed,
    /// Tell the login that its window is gone.
    LoginClosed,
    /// Set the margin of the mini player's shadow.
    SetShadow,
}

/// What a window's event calls for, by the window's label.
pub open spec fn action_on(
    event: WindowEvent,
    label: Seq<char>,
    minimize_to_tray: bool,
) -> WindowAction {
    match event {
        WindowEvent::CloseRequested => if label == "main"@ {
            if minimize_to_tray {
                WindowAction::HideInTray
            } else {
                WindowAction::Nothing
            }
        } else if label == "miniplayer"@ {
            WindowAction::MiniplayerClosed
        } else {
            WindowAction::Nothing
        },
        WindowEvent::Destroyed => if label == "miniplayer"@ {
            WindowAction::MiniplayerClosed
        } else if label == "pkce-login"@ {
            WindowAction::LoginClosed
        } else {
            WindowAction::Nothing
        },
        WindowEvent::Focused => if label == "miniplayer"@ {
            WindowAction::SetShadow
        } else {
            WindowAction::Nothing
        },
        WindowEvent::Other => WindowAction::Nothing,
    }
}

/// Something happened to a window.
pub fn on_window_event(event: WindowEvent, label: &str, minimize_to_tray: bool) -> (action:
    WindowAction)
    ensures
        action == action_on(event, label@, minimize_to_tray),
{
    match event {
        WindowEvent::CloseRequested => {
            if text::same_text(label, "main") {
                if minimize_to_tray {
                    WindowAction::HideInTray
                } else {
                    WindowAction::Nothing
                }
            } else if text::same_text(label, "miniplayer") {
                WindowAction::MiniplayerClosed
            } else {
                WindowAction::Nothing
            }
        },
        WindowEvent::Destroyed => {
            if text::same_text(label, "miniplayer") {
                WindowAction::MiniplayerClosed
            } else if text::same_text(label, "pkce-login") {
                WindowAction::LoginClosed
            } else {
                WindowAction::Nothing
            }
        },
        WindowEvent::Focused => {
            if text::same_text(label, "miniplayer") {
                WindowAction::SetShadow
            } else {
                WindowAction::Nothing
            }
        },
        WindowEvent::Other => WindowAction::Nothing,
    }
}

/// A global key.
#[derive(Clone, Copy, Debug, PartialEq, Eq, Structural)]
pub enum Key {
    MediaPlayPause,
    MediaTrackNext,
    MediaTrackPrevious,
    Other,
}

/// The event that a key sends to the frontend when it goes down.
pub fn on_shortcut(key: Key, pressed: bool) -> (event: Option<&'static str>)
    ensures
        match event {
            Some(event) => {
                &&& pressed
                &&& match key {
                    Key::MediaPlayPause => event@ == "tray:toggle-play"@,
                    Key::MediaTrackNext => event@ == "tray:next-track"@,
                    Key::MediaTrackPrevious => event@ == "tray:prev-track"@,
                    Key::Other => false,
                }
            },
            None => !pressed || key is Other,
        },
{
    if !pressed {
        return None;
    }
    match key {
        Key::MediaPlayPause => Some("tray:toggle-play"),
        Key::MediaTrackNext => Some("tray:next-track"),
        Key::MediaTrackPrevious => Some("tray:prev-track"),
        Key::Other => None,
    }
}

// ---------------------------------------------------------------------------
// Laws
// ---------------------------------------------------------------------------

/// The media controls and Discord are told the same of a track, and what the frontend
/// knows of it: every fact under its own name.
pub proof fn law_both_are_told_what_plays(
    mpris: MprisCommand,
    discord: DiscordCommand,
    metadata: MprisMetadata,
)
    requires
        mpris_metadata(mpris, metadata),
        discord_metadata(discord, metadata),
    ensures
        mpris matches MprisCommand::SetMetadata { title, artist, album, art_url, .. } && title
            == metadata.title && artist == metadata.artist && album == metadata.album && art_url
            == metadata.art_url,
        mpris matches MprisCommand::SetMetadata { track_id, track_number, disc_number, .. }
            && track_id == metadata.track_id && track_number == metadata.track_number
            && disc_number == metadata.disc_number,
        mpris matches MprisCommand::SetMetadata {
            album_artist,
            content_created,
            user_rating,
            duration_secs,
            ..
        } && album_artist == metadata.album_artist && content_created == metadata.content_created
            && user_rating == metadata.user_rating && duration_secs == metadata.duration_secs,
        mpris matches MprisCommand::SetMetadata { url, .. } && (url is None <==> metadata.url@.len()
            == 0) && (url matches Some(url) ==> url == metadata.url),
        discord matches DiscordCommand::SetMetadata { title, artist, album, art_url, .. } && title
            == metadata.title && artist == metadata.artist && album == metadata.album && art_url
            == metadata.art_url,
        discord matches DiscordCommand::SetMetadata { duration_secs, url, quality_text, .. }
            && duration_secs == metadata.duration_secs && url == metadata.url && quality_text
            == metadata.quality_text,
{
}

/// Each action has its own occasion: only the main window hides in the tray, only when it
/// is asked to close and the user wants that; a mini player is reported closed when it is
/// closed or gone; a login window only when it is gone; and only a mini player that gets
/// the focus has its shadow set.
pub proof fn law_each_window_action_has_its_occasion(
    event: WindowEvent,
    label: Seq<char>,
    minimize_to_tray: bool,
)
    ensures
        action_on(event, label, minimize_to_tray) is HideInTray <==> event is CloseRequested
            && label == "main"@ && minimize_to_tray,
        action_on(event, label, minimize_to_tray) is MiniplayerClosed <==> (event is CloseRequested
            || event is Destroyed) && label == "miniplayer"@,
        action_on(event, label, minimize_to_tray) is LoginClosed <==> event is Destroyed && label
            == "pkce-login"@,
        action_on(event, label, minimize_to_tray) is SetShadow <==> event is Focused && label
            == "miniplayer"@,
{
    reveal_strlit("main");
    reveal_strlit("miniplayer");
    reveal_strlit("pkce-login");
    assert("main"@.len() == 4 && "miniplayer"@.len() == 10 && "pkce-login"@.len() == 10);
    assert("miniplayer"@[0] == 'm' && "pkce-login"@[0] == 'p');
}

} // verus!
